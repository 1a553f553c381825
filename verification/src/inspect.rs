//! Writing the values that a script hands to its console out as fragments
//! of a console message. A value is held as far as it is written out: six
//! levels deep, and a hundred entries of each array and object.

use vstd::prelude::*;

use crate::console::{ConsoleMessage, ConsoleMessageView, MessageType, MsgFrag, MsgFragView};
use crate::data::models::views;
use crate::text::{copy_str, str_eq};

verus! {

/// Deepest nesting at which a value is written out: a value that is nested
/// deeper is written as truncated.
pub const MAX_DEPTH: usize = 5;

/// Most entries of an array or of an object that are written out.
pub const MAX_ENTRIES: usize = 100;

/// A value of a script.
#[derive(Debug)]
pub enum JsValue {
    /// No value: a hole of an array, or a property that cannot be read.
    Absent,
    Undefined,
    Null,
    /// A number, as the bits of its 64-bit IEEE 754 form.
    Number(u64),
    /// A string, or nothing where its text cannot be read.
    String(Option<String>),
    Symbol,
    Bool(bool),
    /// A function, with its name where it has one.
    Function(Option<String>),
    /// An array: its length, and its first entries.
    Array { length: usize, items: Vec<JsValue> },
    /// An array whose entries cannot be read.
    OpaqueArray,
    Object(JsObject),
    /// An object that cannot be read.
    OpaqueObject,
    /// A value of no known kind.
    Unknown,
}

/// An object of a script.
#[derive(Debug)]
pub struct JsObject {
    /// The name of the constructor, where the object has one with a name.
    pub class_name: Option<String>,
    /// Whether the constructor is `Error` or inherits from it.
    pub is_error: bool,
    /// The property `stack`, as a string, where it can be read.
    pub stack: Option<String>,
    /// The properties, or nothing where their names cannot be listed.
    pub props: Option<JsProps>,
}

/// The properties of an object: their number, and the first of them.
#[derive(Debug)]
pub struct JsProps {
    pub length: usize,
    pub entries: Vec<JsEntry>,
}

/// A property of an object.
#[derive(Debug)]
pub struct JsEntry {
    pub key: JsKey,
    pub value: JsValue,
}

/// The name of a property.
#[derive(Debug)]
pub enum JsKey {
    /// The name cannot be had: nothing is written of the property.
    Absent,
    /// A string, or nothing where its text cannot be read.
    String(Option<String>),
    /// A symbol, with its description where it has one.
    Symbol(Option<String>),
    /// A name that is neither a string nor a symbol.
    Other(JsValue),
}

/// The text of an optional string, or `other` where there is none.
pub open spec fn text_or(s: Option<String>, other: Seq<char>) -> Seq<char> {
    match s {
        Some(s) => s@,
        None => other,
    }
}

/// The separator before the entry at the place `i` of a list.
pub open spec fn separator(i: int) -> Seq<MsgFragView> {
    if i == 0 {
        Seq::empty()
    } else {
        seq![MsgFragView::ListSep]
    }
}

/// The mark that ends a list of `length` entries of which not all are
/// written out.
pub open spec fn cut_mark(length: usize) -> Seq<MsgFragView> {
    if length > MAX_ENTRIES {
        seq![MsgFragView::ListSep, MsgFragView::Truncated]
    } else {
        Seq::empty()
    }
}

/// The number of entries of a list of `length` entries that are written
/// out.
pub open spec fn shown(length: usize) -> nat {
    if length > MAX_ENTRIES {
        MAX_ENTRIES as nat
    } else {
        length as nat
    }
}

/// The fragments of a value at the nesting depth `depth`.
pub open spec fn value_frags(depth: nat, v: JsValue) -> Seq<MsgFragView>
    decreases v, 0nat, 0nat,
{
    if v is Absent {
        Seq::empty()
    } else if depth > MAX_DEPTH {
        seq![MsgFragView::Truncated]
    } else {
        match v {
            JsValue::Absent => Seq::empty(),
            JsValue::Undefined => seq![MsgFragView::Undefined],
            JsValue::Null => seq![MsgFragView::Null],
            JsValue::Number(bits) => seq![MsgFragView::Number(bits)],
            JsValue::String(s) => seq![MsgFragView::String(text_or(s, "??"@))],
            JsValue::Symbol => seq![MsgFragView::Symbol("??"@)],
            JsValue::Bool(b) => seq![MsgFragView::Bool(b)],
            JsValue::Function(name) => seq![MsgFragView::Function(text_or(name, "anonymous"@))],
            JsValue::Array { length, items } => array_frags(depth, length, items),
            JsValue::OpaqueArray => seq![
                MsgFragView::ArrayStart,
                MsgFragView::Unknown,
                MsgFragView::ArrayEnd,
            ],
            JsValue::Object(obj) => object_frags(depth, obj),
            JsValue::OpaqueObject => seq![
                MsgFragView::ObjectStart,
                MsgFragView::Unknown,
                MsgFragView::ObjectEnd,
            ],
            JsValue::Unknown => seq![MsgFragView::Unknown],
        }
    }
}

/// The fragments of an array at the nesting depth `depth`: its entries
/// between brackets.
pub open spec fn array_frags(depth: nat, length: usize, items: Vec<JsValue>) -> Seq<MsgFragView>
    decreases items, MAX_ENTRIES + 1, 0nat,
{
    seq![MsgFragView::ArrayStart] + item_frags(depth + 1, items, shown(length)) + cut_mark(length)
        + seq![MsgFragView::ArrayEnd]
}

/// The fragments of an object at the nesting depth `depth`: the name of its
/// class, and between braces its stack trace and its properties.
pub open spec fn object_frags(depth: nat, obj: JsObject) -> Seq<MsgFragView>
    decreases obj, 0nat, 0nat,
{
    class_frags(obj.class_name) + seq![MsgFragView::ObjectStart] + trace_frags(
        obj.is_error,
        obj.stack,
    ) + props_frags(depth, obj.props) + seq![MsgFragView::ObjectEnd]
}

/// The fragments of the properties of an object at the nesting depth
/// `depth`.
pub open spec fn props_frags(depth: nat, props: Option<JsProps>) -> Seq<MsgFragView>
    decreases props, 0nat, 0nat,
{
    match props {
        Some(props) => entry_frags(depth + 1, props.entries, shown(props.length)) + cut_mark(
            props.length,
        ),
        None => seq![MsgFragView::ObjectStart, MsgFragView::Unknown],
    }
}

/// The fragments of the first `n` entries of an array.
pub open spec fn item_frags(depth: nat, items: Vec<JsValue>, n: nat) -> Seq<MsgFragView>
    decreases items, n, 0nat,
{
    if n == 0 {
        Seq::empty()
    } else {
        item_frags(depth, items, (n - 1) as nat) + separator(n - 1) + (if n - 1 < items@.len() {
            value_frags(depth, items@[n - 1])
        } else {
            Seq::empty()
        })
    }
}

/// The fragments of the first `n` properties of an object.
pub open spec fn entry_frags(depth: nat, entries: Vec<JsEntry>, n: nat) -> Seq<MsgFragView>
    decreases entries, n, 0nat,
{
    if n == 0 {
        Seq::empty()
    } else {
        entry_frags(depth, entries, (n - 1) as nat) + separator(n - 1) + (if n - 1
            < entries@.len() {
            property_frags(depth, entries@[n - 1])
        } else {
            Seq::empty()
        })
    }
}

/// The fragments of one property: its name, the sign that joins name and
/// value, and its value.
pub open spec fn property_frags(depth: nat, entry: JsEntry) -> Seq<MsgFragView>
    decreases entry, 0nat, 0nat,
{
    match entry.key {
        JsKey::Absent => Seq::empty(),
        JsKey::String(name) => seq![
            MsgFragView::KeyString(text_or(name, "??"@)),
            MsgFragView::ObjectMapsTo,
        ] + value_frags(depth, entry.value),
        JsKey::Symbol(name) => seq![
            MsgFragView::KeySymbol(text_or(name, ""@)),
            MsgFragView::ObjectMapsTo,
        ] + value_frags(depth, entry.value),
        JsKey::Other(key) => value_frags(depth, key) + seq![MsgFragView::ObjectMapsTo]
            + value_frags(depth, entry.value),
    }
}

/// The fragment that names the class of an object: none for a plain
/// object.
pub open spec fn class_frags(class_name: Option<String>) -> Seq<MsgFragView> {
    match class_name {
        Some(name) if name@ != "Object"@ => seq![MsgFragView::ClassName(name@)],
        _ => Seq::empty(),
    }
}

/// The fragment that holds the stack trace of an error.
pub open spec fn trace_frags(is_error: bool, stack: Option<String>) -> Seq<MsgFragView> {
    match stack {
        Some(trace) if is_error => seq![MsgFragView::ErrorTrace(trace@)],
        _ => Seq::empty(),
    }
}

/// The text of an optional string, or `other` where there is none.
fn text_or_else(s: &Option<String>, other: &str) -> (text: String)
    ensures
        text@ == text_or(*s, other@),
{
    match s {
        Some(s) => copy_str(s.as_str()),
        None => copy_str(other),
    }
}

/// Adds a fragment to a message.
fn put(out: &mut Vec<MsgFrag>, frag: MsgFrag)
    ensures
        views(final(out)@) == views(old(out)@) + seq![frag@],
{
    out.push(frag);
    assert(views(out@) =~= views(old(out)@) + seq![frag@]);
}

/// Writes a value out at the nesting depth `depth`.
pub fn obj_to_frag(out: &mut Vec<MsgFrag>, depth: usize, obj: &JsValue)
    ensures
        views(final(out)@) == views(old(out)@) + value_frags(depth as nat, *obj),
    decreases obj, 0nat, 0nat,
{
    if let JsValue::Absent = obj {
        assert(views(out@) =~= views(out@) + Seq::<MsgFragView>::empty());
        return ;
    }
    if depth > MAX_DEPTH {
        put(out, MsgFrag::Truncated);
        return ;
    }
    proof {
        reveal_strlit("??");
        reveal_strlit("anonymous");
    }
    match obj {
        JsValue::Absent => {},
        JsValue::Undefined => put(out, MsgFrag::Undefined),
        JsValue::Null => put(out, MsgFrag::Null),
        JsValue::Number(bits) => put(out, MsgFrag::Number(*bits)),
        JsValue::String(s) => put(out, MsgFrag::String(text_or_else(s, "??"))),
        JsValue::Symbol => put(out, MsgFrag::Symbol(copy_str("??"))),
        JsValue::Bool(b) => put(out, MsgFrag::Bool(*b)),
        JsValue::Function(name) => put(out, MsgFrag::Function(text_or_else(name, "anonymous"))),
        JsValue::Array { length, items } => write_array(out, depth, *length, items),
        JsValue::OpaqueArray => {
            put(out, MsgFrag::ArrayStart);
            put(out, MsgFrag::Unknown);
            put(out, MsgFrag::ArrayEnd);
            assert(views(out@) =~= views(old(out)@) + value_frags(depth as nat, *obj));
        },
        JsValue::Object(object) => write_object(out, depth, object),
        JsValue::OpaqueObject => {
            put(out, MsgFrag::ObjectStart);
            put(out, MsgFrag::Unknown);
            put(out, MsgFrag::ObjectEnd);
            assert(views(out@) =~= views(old(out)@) + value_frags(depth as nat, *obj));
        },
        JsValue::Unknown => put(out, MsgFrag::Unknown),
    }
}

/// Writes an array out.
fn write_array(out: &mut Vec<MsgFrag>, depth: usize, length: usize, items: &Vec<JsValue>)
    requires
        depth <= MAX_DEPTH,
    ensures
        views(final(out)@) == views(old(out)@) + array_frags(depth as nat, length, *items),
    decreases items, MAX_ENTRIES + 1, 0nat,
{
    put(out, MsgFrag::ArrayStart);
    write_items(out, depth + 1, items, length);
    put(out, MsgFrag::ArrayEnd);
    assert(views(out@) =~= views(old(out)@) + array_frags(depth as nat, length, *items));
}

/// Writes an object out.
fn write_object(out: &mut Vec<MsgFrag>, depth: usize, object: &JsObject)
    requires
        depth <= MAX_DEPTH,
    ensures
        views(final(out)@) == views(old(out)@) + object_frags(depth as nat, *object),
    decreases object, 0nat, 0nat,
{
    write_class(out, &object.class_name);
    put(out, MsgFrag::ObjectStart);
    write_trace(out, object.is_error, &object.stack);
    write_props(out, depth, &object.props);
    put(out, MsgFrag::ObjectEnd);
    assert(views(out@) =~= views(old(out)@) + object_frags(depth as nat, *object));
}

/// Writes the properties of an object out.
fn write_props(out: &mut Vec<MsgFrag>, depth: usize, props: &Option<JsProps>)
    requires
        depth <= MAX_DEPTH,
    ensures
        views(final(out)@) == views(old(out)@) + props_frags(depth as nat, *props),
    decreases props, 0nat, 0nat,
{
    match props {
        Some(props) => {
            write_entries(out, depth + 1, &props.entries, props.length);
        },
        None => {
            put(out, MsgFrag::ObjectStart);
            put(out, MsgFrag::Unknown);
            assert(views(out@) =~= views(old(out)@) + seq![
                MsgFragView::ObjectStart,
                MsgFragView::Unknown,
            ]);
        },
    }
}

/// Writes the name of the class of an object out.
fn write_class(out: &mut Vec<MsgFrag>, class_name: &Option<String>)
    ensures
        views(final(out)@) == views(old(out)@) + class_frags(*class_name),
{
    match class_name {
        Some(name) => {
            if !str_eq(name.as_str(), "Object") {
                put(out, MsgFrag::ClassName(copy_str(name.as_str())));
                return ;
            }
        },
        None => {},
    }
    assert(views(out@) =~= views(out@) + Seq::<MsgFragView>::empty());
}

/// Writes the stack trace of an error out.
fn write_trace(out: &mut Vec<MsgFrag>, is_error: bool, stack: &Option<String>)
    ensures
        views(final(out)@) == views(old(out)@) + trace_frags(is_error, *stack),
{
    if is_error {
        match stack {
            Some(trace) => {
                put(out, MsgFrag::ErrorTrace(copy_str(trace.as_str())));
                return ;
            },
            None => {},
        }
    }
    assert(views(out@) =~= views(out@) + Seq::<MsgFragView>::empty());
}

/// Writes the entries of an array of `length` entries out, with the mark
/// that tells that not all of them are written.
fn write_items(out: &mut Vec<MsgFrag>, depth: usize, items: &Vec<JsValue>, length: usize)
    ensures
        views(final(out)@) == views(old(out)@) + item_frags(depth as nat, *items, shown(length))
            + cut_mark(length),
    decreases items, MAX_ENTRIES, 0nat,
{
    let n = if length > MAX_ENTRIES {
        MAX_ENTRIES
    } else {
        length
    };
    let mut i: usize = 0;
    assert(views(out@) =~= views(out@) + item_frags(depth as nat, *items, 0));
    while i < n
        invariant
            i <= n,
            n == shown(length),
            views(out@) == views(old(out)@) + item_frags(depth as nat, *items, i as nat),
        decreases n - i,
    {
        let ghost before = views(out@);
        if i != 0 {
            put(out, MsgFrag::ListSep);
        }
        if i < items.len() {
            obj_to_frag(out, depth, &items[i]);
        }
        i += 1;
        assert(views(out@) =~= views(old(out)@) + item_frags(depth as nat, *items, i as nat));
    }
    if length > MAX_ENTRIES {
        put(out, MsgFrag::ListSep);
        put(out, MsgFrag::Truncated);
    }
    assert(views(out@) =~= views(old(out)@) + item_frags(depth as nat, *items, shown(length))
        + cut_mark(length));
}

/// Writes the properties of an object with `length` properties out, with
/// the mark that tells that not all of them are written.
fn write_entries(out: &mut Vec<MsgFrag>, depth: usize, entries: &Vec<JsEntry>, length: usize)
    ensures
        views(final(out)@) == views(old(out)@) + entry_frags(
            depth as nat,
            *entries,
            shown(length),
        ) + cut_mark(length),
    decreases entries, MAX_ENTRIES, 0nat,
{
    let n = if length > MAX_ENTRIES {
        MAX_ENTRIES
    } else {
        length
    };
    let mut i: usize = 0;
    assert(views(out@) =~= views(out@) + entry_frags(depth as nat, *entries, 0));
    while i < n
        invariant
            i <= n,
            n == shown(length),
            views(out@) == views(old(out)@) + entry_frags(depth as nat, *entries, i as nat),
        decreases n - i,
    {
        if i != 0 {
            put(out, MsgFrag::ListSep);
        }
        if i < entries.len() {
            write_property(out, depth, &entries[i]);
        }
        i += 1;
        assert(views(out@) =~= views(old(out)@) + entry_frags(depth as nat, *entries, i as nat));
    }
    if length > MAX_ENTRIES {
        put(out, MsgFrag::ListSep);
        put(out, MsgFrag::Truncated);
    }
    assert(views(out@) =~= views(old(out)@) + entry_frags(
        depth as nat,
        *entries,
        shown(length),
    ) + cut_mark(length));
}

/// Writes one property out.
fn write_property(out: &mut Vec<MsgFrag>, depth: usize, entry: &JsEntry)
    ensures
        views(final(out)@) == views(old(out)@) + property_frags(depth as nat, *entry),
    decreases entry, 0nat, 0nat,
{
    proof {
        reveal_strlit("??");
        reveal_strlit("");
    }
    match &entry.key {
        JsKey::Absent => {
            assert(views(out@) =~= views(out@) + Seq::<MsgFragView>::empty());
            return ;
        },
        JsKey::String(name) => put(out, MsgFrag::KeyString(text_or_else(name, "??"))),
        JsKey::Symbol(name) => put(out, MsgFrag::KeySymbol(text_or_else(name, ""))),
        JsKey::Other(key) => obj_to_frag(out, depth, key),
    }
    put(out, MsgFrag::ObjectMapsTo);
    obj_to_frag(out, depth, &entry.value);
    assert(views(out@) =~= views(old(out)@) + property_frags(depth as nat, *entry));
}

/// The fragments of an argument of a call of the console: a string is
/// written as it is, any other value as a value at the depth 0.
pub open spec fn arg_frags(arg: JsValue) -> Seq<MsgFragView> {
    match arg {
        JsValue::String(s) => seq![MsgFragView::Log(text_or(s, "??"@))],
        _ => value_frags(0, arg),
    }
}

/// The fragments of the first `n` arguments of a call of the console, with
/// a separator between one and the next.
pub open spec fn args_frags(args: Seq<JsValue>, n: nat) -> Seq<MsgFragView>
    decreases n,
{
    if n == 0 {
        Seq::empty()
    } else {
        args_frags(args, (n - 1) as nat) + (if n - 1 > 0 {
            seq![MsgFragView::ArgSep]
        } else {
            Seq::empty()
        }) + arg_frags(args[n - 1])
    }
}

/// Writes an argument of a call of the console out.
pub fn arg_to_frag(out: &mut Vec<MsgFrag>, arg: &JsValue)
    ensures
        views(final(out)@) == views(old(out)@) + arg_frags(*arg),
{
    proof {
        reveal_strlit("??");
    }
    match arg {
        JsValue::String(s) => put(out, MsgFrag::Log(text_or_else(s, "??"))),
        _ => obj_to_frag(out, 0, arg),
    }
}

/// The message of a call of the console with the arguments `args`.
pub fn console_msg(ty: MessageType, args: &Vec<JsValue>) -> (msg: ConsoleMessage)
    ensures
        msg@ == (ConsoleMessageView {
            msg_type: ty,
            message: args_frags(args@, args@.len()),
        }),
{
    let mut message: Vec<MsgFrag> = Vec::new();
    let mut i: usize = 0;
    assert(views(message@) =~= args_frags(args@, 0));
    while i < args.len()
        invariant
            i <= args@.len(),
            views(message@) == args_frags(args@, i as nat),
        decreases args@.len() - i,
    {
        if i != 0 {
            put(&mut message, MsgFrag::ArgSep);
        }
        arg_to_frag(&mut message, &args[i]);
        i += 1;
        assert(views(message@) =~= args_frags(args@, i as nat));
    }
    let msg = ConsoleMessage { msg_type: ty, message };
    assert(msg@.message =~= views(msg.message@));
    msg
}

} // verus!
