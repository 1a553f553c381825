//! The modules of a script run: the script of the domain and the module that
//! calls it.

use vstd::prelude::*;
use vstd::string::{StrSliceExecFns, StringExecFns};

use crate::data::table::{first_index, lemma_first_index_is, lemma_first_index_none};
use crate::text::{copy_str, opt_text, str_eq};
use crate::data::models::views;
use crate::uri::{join_url, parse_url, url_joined, url_parsed, url_parts, UrlFailure};

verus! {

/// What the specifier of every module of a script run starts with.
pub const MODULE_SOURCE_PREFIX: &'static str = "aof://";

/// The name of the module that calls the script.
pub const MODULE_SOURCE_EXEC_NAME: &'static str = "script_exec";

/// What stands for the specifier of the script in the module that calls it.
pub const MODULE_REPLACE_STR: &'static str = "###MODULE###";

/// What every script starts with: it hides the global `Deno`.
pub const SCRIPT_PREFIX: &'static str = "var Deno = null;";

/// The specifier of the module that holds the script of a domain.
pub fn module_specifier(domain: &str) -> (spec: String)
    ensures
        spec@ == MODULE_SOURCE_PREFIX@ + domain@,
{
    let mut mod_spec = String::from_str(MODULE_SOURCE_PREFIX);
    mod_spec.append(domain);
    mod_spec
}

/// The specifier of the module that calls the script.
pub fn exec_specifier() -> (spec: String)
    ensures
        spec@ == MODULE_SOURCE_PREFIX@ + MODULE_SOURCE_EXEC_NAME@,
{
    let mut exec_spec = String::from_str(MODULE_SOURCE_PREFIX);
    exec_spec.append(MODULE_SOURCE_EXEC_NAME);
    exec_spec
}

/// The source of the module that holds a script.
pub fn module_source(script: &str) -> (source: String)
    ensures
        source@ == SCRIPT_PREFIX@ + script@,
{
    let mut source = String::from_str(SCRIPT_PREFIX);
    source.append(script);
    source
}

/// Whether `pattern` stands in `text` at the place `at`.
pub open spec fn stands_at(text: Seq<char>, pattern: Seq<char>, at: int) -> bool {
    0 <= at && at + pattern.len() <= text.len() && text.subrange(at, at + pattern.len())
        == pattern
}

/// The text with `with` in the place of each occurrence of `pattern`, the
/// occurrences taken from the left and none of them over another. An empty
/// pattern occurs nowhere.
pub open spec fn replaced(text: Seq<char>, pattern: Seq<char>, with: Seq<char>) -> Seq<char>
    decreases text.len(),
{
    if pattern.len() == 0 || text.len() == 0 {
        text
    } else if stands_at(text, pattern, 0) {
        with + replaced(text.skip(pattern.len() as int), pattern, with)
    } else {
        text.take(1) + replaced(text.skip(1), pattern, with)
    }
}

/// Whether `pattern` stands in `text` at the place `at`.
fn is_at(text: &str, pattern: &str, at: usize, n: usize, m: usize) -> (found: bool)
    requires
        n == text@.len(),
        m == pattern@.len(),
        at <= n,
    ensures
        found == stands_at(text@, pattern@, at as int),
{
    if m > n - at {
        return false;
    }
    let mut j: usize = 0;
    while j < m
        invariant
            j <= m,
            n == text@.len(),
            m == pattern@.len(),
            at + m <= n,
            forall|k: int| 0 <= k < j ==> text@[at + k] == pattern@[k],
        decreases m - j,
    {
        if text.get_char(at + j) != pattern.get_char(j) {
            assert(text@.subrange(at as int, at + m)[j as int] != pattern@[j as int]);
            return false;
        }
        j += 1;
    }
    assert(text@.subrange(at as int, at + m) =~= pattern@);
    true
}

/// Replaces each occurrence of a pattern in a text.
pub fn replace_all(text: &str, pattern: &str, with: &str) -> (out: String)
    ensures
        out@ == replaced(text@, pattern@, with@),
{
    let n = text.unicode_len();
    let m = pattern.unicode_len();
    if m == 0 {
        return copy_str(text);
    }
    let mut out = String::new();
    let mut i: usize = 0;
    assert(text@.skip(0) =~= text@);
    while i < n
        invariant
            i <= n,
            n == text@.len(),
            m == pattern@.len(),
            m > 0,
            out@ + replaced(text@.skip(i as int), pattern@, with@) == replaced(
                text@,
                pattern@,
                with@,
            ),
        decreases n - i,
    {
        let ghost rest = text@.skip(i as int);
        let ghost before = out@;
        if is_at(text, pattern, i, n, m) {
            out.append(with);
            proof {
                assert(rest.subrange(0, m as int) =~= text@.subrange(i as int, i + m));
                assert(rest.skip(m as int) =~= text@.skip(i + m));
                assert(out@ + replaced(text@.skip(i + m), pattern@, with@) =~= before + (with@
                    + replaced(rest.skip(m as int), pattern@, with@)));
            }
            i += m;
        } else {
            out.append(text.substring_char(i, i + 1));
            proof {
                assert(!stands_at(rest, pattern@, 0)) by {
                    if stands_at(rest, pattern@, 0) {
                        assert(rest.subrange(0, m as int) =~= text@.subrange(i as int, i + m));
                    }
                }
                assert(rest.take(1) =~= text@.subrange(i as int, i + 1));
                assert(rest.skip(1) =~= text@.skip(i + 1));
                assert(out@ + replaced(text@.skip(i + 1), pattern@, with@) =~= before + (
                rest.take(1) + replaced(rest.skip(1), pattern@, with@)));
            }
            i += 1;
        }
    }
    assert(text@.skip(n as int) =~= Seq::<char>::empty());
    assert(out@ + Seq::<char>::empty() =~= out@);
    out
}

/// The source of the module that calls the script: the template with the
/// specifier of the script's module in the place of `MODULE_REPLACE_STR`.
/// The specifier stands between double quotes there, so its own are
/// escaped.
pub open spec fn exec_source_of(template: Seq<char>, mod_spec: Seq<char>) -> Seq<char> {
    replaced(template, MODULE_REPLACE_STR@, replaced(mod_spec, "\""@, "\\\""@))
}

/// Fills the template of the module that calls the script.
pub fn exec_source(template: &str, mod_spec: &str) -> (source: String)
    ensures
        source@ == exec_source_of(template@, mod_spec@),
{
    let escaped = replace_all(mod_spec, "\"", "\\\"");
    replace_all(template, MODULE_REPLACE_STR, escaped.as_str())
}

/// The URL that an import names: the specifier where it is an absolute URL,
/// the specifier on the URL of the module that imports where it is a
/// relative one. Nothing where neither makes a URL.
pub open spec fn resolved(specifier: Seq<char>, referrer: Seq<char>) -> Option<Seq<char>> {
    match url_parsed(specifier) {
        Ok(u) => Some(u.text),
        Err(UrlFailure::RelativeWithoutBase) => url_joined(referrer, specifier),
        Err(UrlFailure::Invalid) => None,
    }
}

/// A module: its specifier and its source.
#[derive(Debug)]
pub struct Module {
    pub url: String,
    pub source: String,
}

/// What a `Module` holds.
pub struct ModuleView {
    pub url: Seq<char>,
    pub source: Seq<char>,
}

impl View for Module {
    type V = ModuleView;

    open spec fn view(&self) -> ModuleView {
        ModuleView { url: self.url@, source: self.source@ }
    }
}

/// The modules that a script run can load.
pub struct ModLoader {
    pub modules: Vec<Module>,
}

/// The source of the module under `url`: that of the first module with the
/// specifier.
pub open spec fn source_of(modules: Seq<Module>, url: Seq<char>) -> Option<Seq<char>> {
    match first_index(modules, |m: Module| m.url@ == url) {
        Some(i) => Some(modules[i].source@),
        None => None,
    }
}

impl ModLoader {
    pub fn new() -> (loader: ModLoader)
        ensures
            loader.modules@.len() == 0,
    {
        ModLoader { modules: Vec::new() }
    }

    /// Finds the module under a specifier.
    fn find(&self, url: &str) -> (place: Option<usize>)
        ensures
            match place {
                Some(i) => i < self.modules@.len() && first_index(
                    self.modules@,
                    |m: Module| m.url@ == url@,
                ) == Some(i as int),
                None => first_index(self.modules@, |m: Module| m.url@ == url@) is None,
            },
    {
        let mut i: usize = 0;
        while i < self.modules.len()
            invariant
                i <= self.modules@.len(),
                forall|j: int| 0 <= j < i ==> (#[trigger] self.modules@[j]).url@ != url@,
            decreases self.modules@.len() - i,
        {
            if str_eq(self.modules[i].url.as_str(), url) {
                proof {
                    lemma_first_index_is(self.modules@, |m: Module| m.url@ == url@, i as int);
                }
                return Some(i);
            }
            i += 1;
        }
        proof {
            lemma_first_index_none(self.modules@, |m: Module| m.url@ == url@);
        }
        None
    }

    /// Puts a module under a specifier: in the place of the first module
    /// that was there under it, or else behind the others. The other modules
    /// stay as they are.
    pub fn insert(&mut self, url: String, source: String)
        ensures
            source_of(final(self).modules@, url@) == Some(source@),
            match first_index(old(self).modules@, |m: Module| m.url@ == url@) {
                Some(i) => final(self).modules@.len() == old(self).modules@.len()
                    && final(self).modules@[i].url@ == url@
                    && final(self).modules@[i].source@ == source@
                    && forall|j: int|
                    0 <= j < old(self).modules@.len() && j != i
                        ==> final(self).modules@[j] == old(self).modules@[j],
                None => final(self).modules@.len() == old(self).modules@.len() + 1
                    && final(self).modules@.last().url@ == url@
                    && final(self).modules@.last().source@ == source@
                    && final(self).modules@.drop_last() == old(self).modules@,
            },
    {
        match self.find(url.as_str()) {
            Some(i) => {
                self.modules.set(i, Module { url, source });
                proof {
                    assert forall|j: int| 0 <= j < i implies !(|m: Module| m.url@ == url@)(
                        #[trigger] self.modules@[j],
                    ) by {
                        crate::data::table::lemma_first_index(
                            old(self).modules@,
                            |m: Module| m.url@ == url@,
                        );
                        assert(self.modules@[j] == old(self).modules@[j]);
                    }
                    lemma_first_index_is(self.modules@, |m: Module| m.url@ == url@, i as int);
                }
            },
            None => {
                let ghost n = self.modules@.len() as int;
                self.modules.push(Module { url, source });
                proof {
                    assert forall|j: int| 0 <= j < n implies !(|m: Module| m.url@ == url@)(
                        #[trigger] self.modules@[j],
                    ) by {
                        crate::data::table::lemma_first_index(
                            old(self).modules@,
                            |m: Module| m.url@ == url@,
                        );
                        assert(self.modules@[j] == old(self).modules@[j]);
                    }
                    lemma_first_index_is(self.modules@, |m: Module| m.url@ == url@, n);
                    assert(self.modules@.drop_last() =~= old(self).modules@);
                }
            },
        }
    }

    /// Resolves the specifier of an import against the URL of the module
    /// that imports: an absolute specifier stands for itself, a relative
    /// one is joined to the URL of the importing module.
    pub fn resolve(&self, specifier: &str, referrer: &str) -> (res: Option<String>)
        ensures
            opt_text(res) == resolved(specifier@, referrer@),
    {
        match parse_url(specifier) {
            Ok(u) => Some(u.text),
            Err(UrlFailure::RelativeWithoutBase) => join_url(referrer, specifier),
            Err(UrlFailure::Invalid) => None,
        }
    }

    /// The source of the module under a specifier, or nothing where there is
    /// no such module.
    pub fn load(&self, url: &str) -> (source: Option<String>)
        ensures
            opt_text(source) == source_of(self.modules@, url@),
    {
        match self.find(url) {
            Some(i) => Some(copy_str(self.modules[i].source.as_str())),
            None => None,
        }
    }
}

/// The modules of a run of the script of a domain, with the URL of the
/// module that is run: the module of the script under the URL that
/// `aof://<domain>` is, and under `aof://script_exec` the module that calls
/// it, which takes the place of the script's where both have one URL.
/// Nothing where the name of the domain makes no URL.
pub open spec fn run_modules(domain: Seq<char>, script: Seq<char>, template: Seq<char>) -> Option<
    (Seq<ModuleView>, Seq<char>),
> {
    match (
        url_parts(MODULE_SOURCE_PREFIX@ + domain),
        url_parts(MODULE_SOURCE_PREFIX@ + MODULE_SOURCE_EXEC_NAME@),
    ) {
        (Some(m), Some(e)) => {
            let module = ModuleView { url: m.text, source: SCRIPT_PREFIX@ + script };
            let exec = ModuleView { url: e.text, source: exec_source_of(template, m.text) };
            Some(
                (
                    if m.text == e.text {
                        seq![exec]
                    } else {
                        seq![module, exec]
                    },
                    e.text,
                ),
            )
        },
        _ => None,
    }
}

/// Makes the modules of a run of the script of a domain. `template` is the
/// source of the module that calls the script, with `MODULE_REPLACE_STR` in
/// the place of the script's specifier.
pub fn script_modules(domain: &str, script: &str, template: &str) -> (res: Option<
    (ModLoader, String),
>)
    ensures
        match (res, run_modules(domain@, script@, template@)) {
            (Some((loader, exec)), Some((modules, url))) => views(loader.modules@) == modules
                && exec@ == url,
            (None, None) => true,
            _ => false,
        },
{
    let mod_spec = match parse_url(module_specifier(domain).as_str()) {
        Ok(u) => u.text,
        Err(_) => {
            return None;
        },
    };
    let exec_spec = match parse_url(exec_specifier().as_str()) {
        Ok(u) => u.text,
        Err(_) => {
            return None;
        },
    };
    let exec = exec_source(template, mod_spec.as_str());
    let mut loader = ModLoader::new();
    loader.insert(mod_spec, module_source(script));
    proof {
        assert(loader.modules@.len() == 1);
    }
    let ghost one = loader.modules@;
    loader.insert(copy_str(exec_spec.as_str()), exec);
    proof {
        let found = |m: Module| m.url@ == exec_spec@;
        if one[0].url@ == exec_spec@ {
            lemma_first_index_is(one, found, 0);
        } else {
            assert forall|j: int| 0 <= j < one.len() implies !found(#[trigger] one[j]) by {}
            lemma_first_index_none(one, found);
        }
        let planned = run_modules(domain@, script@, template@)->0;
        assert(views(loader.modules@) =~= planned.0);
    }
    Some((loader, exec_spec))
}

} // verus!
