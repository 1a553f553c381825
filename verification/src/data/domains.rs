//! Domains: namespaces of sources, each with the script that fetches them.

use unicode_segmentation::UnicodeSegmentation;
use vstd::prelude::*;
use vstd::string::StringExecFns;
use vstd::utf8::encode_utf8;

use crate::bytes::{bytes_before, bytes_lt};
use crate::data::validity::{lemma_domains_stay_unique, lemma_subscriptions_stay_unique};
use crate::data::models::{
    views, DomainSubscription, DomainSubscriptionView, SourceDomain, SourceDomainView,
};
use crate::data::table::{
    any_where, change_each, each_changed, find_first, first_index, first_where,
    lemma_first_index, lemma_first_index_is, lemma_first_index_none, picked, retain, select,
};
use crate::data::users::{max_id, same_id, UserId};
use crate::data::{take_rows, Data, DataError, DataView};
use crate::random::random_usize;
use crate::text::{copy_str, str_eq};

verus! {

pub type DomainId = i32;

/// Number of letters that a domain id is drawn from.
pub const DOMAIN_ID_CHAR_COUNT: usize = 26;

pub const DOMAIN_ID_LEN: usize = 8;

/// Max len of the abbrev in grapheme clusters.
pub const DOMAIN_ABBREV_MAX_LEN: usize = 6;

/// Max len of the name in grapheme clusters.
pub const DOMAIN_NAME_MAX_LEN: usize = 128;

/// Max len of the description in grapheme clusters.
pub const DESCRIPTION_MAX_LEN: usize = 2048;

/// Max len of the script in bytes.
pub const SCRIPT_MAX_LEN: usize = 262_144;

/// How often a random domain id is drawn before the store gives up.
pub const MAX_ID_ATTEMPTS: usize = 4096;

pub const DEFAULT_SCRIPT: &'static str = "// write your script here\n\nexport async function loadSource(path) {\n    // ...\n    throw new Error('not implemented');\n}\n\nexport async function loadSourceItem(path) {\n    // ...\n    throw new Error('not implemented');\n}";

/// The letter of a domain id at the place `i` of the alphabet that ids are
/// drawn from: the lower-case letters, with `l` before `k`.
pub open spec fn domain_id_letter(i: int) -> Seq<char> {
    if i == 0 {
        "a"@
    } else if i == 1 {
        "b"@
    } else if i == 2 {
        "c"@
    } else if i == 3 {
        "d"@
    } else if i == 4 {
        "e"@
    } else if i == 5 {
        "f"@
    } else if i == 6 {
        "g"@
    } else if i == 7 {
        "h"@
    } else if i == 8 {
        "i"@
    } else if i == 9 {
        "j"@
    } else if i == 10 {
        "l"@
    } else if i == 11 {
        "k"@
    } else if i == 12 {
        "m"@
    } else if i == 13 {
        "n"@
    } else if i == 14 {
        "o"@
    } else if i == 15 {
        "p"@
    } else if i == 16 {
        "q"@
    } else if i == 17 {
        "r"@
    } else if i == 18 {
        "s"@
    } else if i == 19 {
        "t"@
    } else if i == 20 {
        "u"@
    } else if i == 21 {
        "v"@
    } else if i == 22 {
        "w"@
    } else if i == 23 {
        "x"@
    } else if i == 24 {
        "y"@
    } else {
        "z"@
    }
}

/// The letter for a draw.
pub fn domain_id_char(i: usize) -> (letter: &'static str)
    requires
        i < DOMAIN_ID_CHAR_COUNT,
    ensures
        letter@ == domain_id_letter(i as int),
{
    if i == 0 {
        "a"
    } else if i == 1 {
        "b"
    } else if i == 2 {
        "c"
    } else if i == 3 {
        "d"
    } else if i == 4 {
        "e"
    } else if i == 5 {
        "f"
    } else if i == 6 {
        "g"
    } else if i == 7 {
        "h"
    } else if i == 8 {
        "i"
    } else if i == 9 {
        "j"
    } else if i == 10 {
        "l"
    } else if i == 11 {
        "k"
    } else if i == 12 {
        "m"
    } else if i == 13 {
        "n"
    } else if i == 14 {
        "o"
    } else if i == 15 {
        "p"
    } else if i == 16 {
        "q"
    } else if i == 17 {
        "r"
    } else if i == 18 {
        "s"
    } else if i == 19 {
        "t"
    } else if i == 20 {
        "u"
    } else if i == 21 {
        "v"
    } else if i == 22 {
        "w"
    } else if i == 23 {
        "x"
    } else if i == 24 {
        "y"
    } else {
        "z"
    }
}

/// The domain id that a sequence of draws gives: for each draw the letter at
/// the place of its remainder by the number of letters.
pub open spec fn domain_id_of(draws: Seq<usize>) -> Seq<char>
    decreases draws.len(),
{
    if draws.len() == 0 {
        Seq::empty()
    } else {
        domain_id_of(draws.drop_last()) + domain_id_letter(
            draws.last() as int % DOMAIN_ID_CHAR_COUNT as int,
        )
    }
}

/// The domain id for a sequence of draws.
pub fn domain_id_from(draws: &Vec<usize>) -> (id: String)
    ensures
        id@ == domain_id_of(draws@),
{
    let mut id = String::new();
    let mut i: usize = 0;
    assert(draws@.take(0) =~= Seq::<usize>::empty());
    while i < draws.len()
        invariant
            i <= draws@.len(),
            id@ == domain_id_of(draws@.take(i as int)),
        decreases draws@.len() - i,
    {
        proof {
            assert(draws@.take(i + 1).drop_last() =~= draws@.take(i as int));
            assert(draws@.take(i + 1).last() == draws@[i as int]);
        }
        id.append(domain_id_char(draws[i] % DOMAIN_ID_CHAR_COUNT));
        i += 1;
    }
    assert(draws@.take(i as int) =~= draws@);
    id
}

/// Whether a text is a domain id as it is generated: made of
/// `DOMAIN_ID_LEN` draws.
pub open spec fn is_generated_id(id: Seq<char>) -> bool {
    exists|draws: Seq<usize>| draws.len() == DOMAIN_ID_LEN && id == #[trigger] domain_id_of(draws)
}

/// Draws a random domain id.
pub fn gen_domain_id() -> (id: String)
    ensures
        is_generated_id(id@),
{
    let mut draws: Vec<usize> = Vec::new();
    let mut i: usize = 0;
    while i < DOMAIN_ID_LEN
        invariant
            i <= DOMAIN_ID_LEN,
            draws@.len() == i,
        decreases DOMAIN_ID_LEN - i,
    {
        draws.push(random_usize());
        i += 1;
    }
    domain_id_from(&draws)
}

/// The number of grapheme clusters of a text: of extended ones where
/// `extended`, else of legacy ones.
pub uninterp spec fn grapheme_len(text: Seq<char>, extended: bool) -> nat;

/// `unicode_segmentation::UnicodeSegmentation::graphemes` and the count of
/// what it yields: the number of grapheme clusters of `text`, which
/// `grapheme_len` names.
#[verifier::external_body]
pub(crate) fn grapheme_count(text: &str, extended: bool) -> (count: usize)
    ensures
        count == grapheme_len(text@, extended),
{
    text.graphemes(extended).count()
}

/// Why a domain was not created or changed.
#[derive(Debug, Clone, Copy, PartialEq, Eq, Structural)]
pub enum UpdateDomainError {
    AbbrevTooShort,
    AbbrevTooLong,
    NameTooShort,
    NameTooLong,
    DescriptionTooLong,
    ScriptTooLong,
    Data(DataError),
}

/// What is wrong with the abbrev or the name of a domain, if anything: the
/// abbrev has one to six grapheme clusters, the name one to 128.
pub open spec fn abbrev_or_name_error(abbrev: Seq<char>, name: Seq<char>) -> Option<
    UpdateDomainError,
> {
    if grapheme_len(abbrev, true) < 1 {
        Some(UpdateDomainError::AbbrevTooShort)
    } else if grapheme_len(abbrev, true) > DOMAIN_ABBREV_MAX_LEN {
        Some(UpdateDomainError::AbbrevTooLong)
    } else if grapheme_len(name, true) < 1 {
        Some(UpdateDomainError::NameTooShort)
    } else if grapheme_len(name, true) > DOMAIN_NAME_MAX_LEN {
        Some(UpdateDomainError::NameTooLong)
    } else {
        None
    }
}

/// What is wrong with the texts of a domain, if anything: with the abbrev or
/// the name, or the description has more than 2048 grapheme clusters, or the
/// script more than 262144 bytes.
pub open spec fn domain_texts_error(
    abbrev: Seq<char>,
    name: Seq<char>,
    description: Seq<char>,
    script: Seq<char>,
) -> Option<UpdateDomainError> {
    match abbrev_or_name_error(abbrev, name) {
        Some(e) => Some(e),
        None => if grapheme_len(description, true) > DESCRIPTION_MAX_LEN {
            Some(UpdateDomainError::DescriptionTooLong)
        } else if encode_utf8(script).len() > SCRIPT_MAX_LEN {
            Some(UpdateDomainError::ScriptTooLong)
        } else {
            None
        },
    }
}

/// Checks the abbrev and the name of a domain.
pub fn check_abbrev_and_name(abbrev: &str, name: &str) -> (res: Result<(), UpdateDomainError>)
    ensures
        match abbrev_or_name_error(abbrev@, name@) {
            Some(e) => res == Err::<(), UpdateDomainError>(e),
            None => res is Ok,
        },
{
    if grapheme_count(abbrev, true) < 1 {
        return Err(UpdateDomainError::AbbrevTooShort);
    }
    if grapheme_count(abbrev, true) > DOMAIN_ABBREV_MAX_LEN {
        return Err(UpdateDomainError::AbbrevTooLong);
    }
    if grapheme_count(name, true) < 1 {
        return Err(UpdateDomainError::NameTooShort);
    }
    if grapheme_count(name, true) > DOMAIN_NAME_MAX_LEN {
        return Err(UpdateDomainError::NameTooLong);
    }
    Ok(())
}

/// Checks the texts of a domain.
pub fn check_domain_texts(abbrev: &str, name: &str, description: &str, script: &str) -> (res:
    Result<(), UpdateDomainError>)
    ensures
        match domain_texts_error(abbrev@, name@, description@, script@) {
            Some(e) => res == Err::<(), UpdateDomainError>(e),
            None => res is Ok,
        },
{
    check_abbrev_and_name(abbrev, name)?;
    if grapheme_count(description, true) > DESCRIPTION_MAX_LEN {
        return Err(UpdateDomainError::DescriptionTooLong);
    }
    if script.as_bytes().len() > SCRIPT_MAX_LEN {
        return Err(UpdateDomainError::ScriptTooLong);
    }
    Ok(())
}

/// The row of a new domain: private, without a description, with the
/// default script.
pub open spec fn new_domain(
    id: i32,
    domain: Seq<char>,
    owner: UserId,
    abbrev: Seq<char>,
    name: Seq<char>,
) -> SourceDomainView {
    SourceDomainView {
        id: Some(id),
        domain,
        abbrev,
        name,
        description: Seq::empty(),
        owner_id: owner,
        is_public: false,
        script: DEFAULT_SCRIPT@,
    }
}

/// Where a domain with the abbrev `abbrev` goes among domains in the order
/// of their abbrevs: before the first whose abbrev comes after it, or at the
/// end.
pub open spec fn place_by_abbrev(sorted: Seq<SourceDomainView>, abbrev: Seq<char>) -> int {
    match first_index(
        sorted,
        |d: SourceDomainView| bytes_before(encode_utf8(abbrev), encode_utf8(d.abbrev)),
    ) {
        Some(i) => i,
        None => sorted.len() as int,
    }
}

/// The domains in the order of their abbrevs, compared as bytes; domains with
/// the same abbrev keep their order.
pub open spec fn ordered_by_abbrev(domains: Seq<SourceDomainView>) -> Seq<SourceDomainView>
    decreases domains.len(),
{
    if domains.len() == 0 {
        Seq::empty()
    } else {
        let before = ordered_by_abbrev(domains.drop_last());
        before.insert(place_by_abbrev(before, domains.last().abbrev), domains.last())
    }
}

impl DataView {
    /// The domain with the row id `id`: the first such row.
    pub open spec fn domain(self, id: DomainId) -> Option<SourceDomainView> {
        first_where(self.source_domains, |d: SourceDomainView| d.id == Some(id))
    }

    /// The domain with the identifier `id`: the first such row.
    pub open spec fn domain_by_domain_id(self, id: Seq<char>) -> Option<SourceDomainView> {
        first_where(self.source_domains, |d: SourceDomainView| d.domain == id)
    }

    /// Whether a domain has the identifier `id`.
    pub open spec fn is_domain_id_taken(self, id: Seq<char>) -> bool {
        any_where(self.source_domains, |d: SourceDomainView| d.domain == id)
    }

    /// The greatest row id of a domain, or zero where no domain has one.
    pub open spec fn max_domain_id(self) -> int {
        max_id(self.source_domains.map_values(|d: SourceDomainView| d.id))
    }

    /// The store with a new domain at the end of the domains, under the row
    /// id that follows the greatest.
    pub open spec fn with_new_domain(
        self,
        domain: Seq<char>,
        owner: UserId,
        abbrev: Seq<char>,
        name: Seq<char>,
    ) -> DataView {
        DataView {
            source_domains: self.source_domains.push(
                new_domain((self.max_domain_id() + 1) as i32, domain, owner, abbrev, name),
            ),
            ..self
        }
    }

    /// The store without the domains of the row id `id`, if the id is one.
    pub open spec fn without_domain(self, id: Option<i32>) -> DataView {
        DataView {
            source_domains: self.source_domains.filter(
                |d: SourceDomainView| !(id is Some && d.id == id),
            ),
            ..self
        }
    }

    /// Whether `user` is subscribed to the domain `domain`.
    pub open spec fn is_subscribed_to_domain(self, user: UserId, domain: Seq<char>) -> bool {
        any_where(
            self.user_source_domain_subscriptions,
            |s: DomainSubscriptionView| s.user_id == user && s.domain == domain,
        )
    }

    /// The store with a subscription of `user` to the domain `domain` added.
    pub open spec fn subscribe_domain(self, user: UserId, domain: Seq<char>) -> DataView {
        DataView {
            user_source_domain_subscriptions: self.user_source_domain_subscriptions.push(
                DomainSubscriptionView { user_id: user, domain },
            ),
            ..self
        }
    }

    /// The store without a subscription of `user` to the domain `domain`.
    pub open spec fn unsubscribe_domain(self, user: UserId, domain: Seq<char>) -> DataView {
        DataView {
            user_source_domain_subscriptions: self.user_source_domain_subscriptions.filter(
                |s: DomainSubscriptionView| !(s.user_id == user && s.domain == domain),
            ),
            ..self
        }
    }

    /// Whether `user` owns the domain or is subscribed to it.
    pub open spec fn domain_is_of_user(self, user: UserId, d: SourceDomainView) -> bool {
        d.owner_id == user || self.is_subscribed_to_domain(user, d.domain)
    }

    /// The identifiers of the domains that `user` owns or is subscribed to,
    /// in the order of their abbrevs.
    pub open spec fn user_full_domain_ids(self, user: UserId) -> Seq<Seq<char>> {
        ordered_by_abbrev(
            self.source_domains.filter(|d: SourceDomainView| self.domain_is_of_user(user, d)),
        ).map_values(|d: SourceDomainView| d.domain)
    }

    /// The identifiers of the public domains, in the order of the table.
    pub open spec fn public_domain_ids(self) -> Seq<Seq<char>> {
        picked(
            self.source_domains,
            |d: SourceDomainView|
                if d.is_public {
                    Some(d.domain)
                } else {
                    None
                },
        )
    }

    /// The store in which the domains of the row id `id`, if it is one, have
    /// the given texts and visibility.
    pub open spec fn with_domain_updated(
        self,
        id: Option<i32>,
        abbrev: Seq<char>,
        name: Seq<char>,
        description: Seq<char>,
        is_public: bool,
        script: Seq<char>,
    ) -> DataView {
        DataView {
            source_domains: each_changed(
                self.source_domains,
                |d: SourceDomainView|
                    if id is Some && d.id == id {
                        SourceDomainView { abbrev, name, description, is_public, script, ..d }
                    } else {
                        d
                    },
            ),
            ..self
        }
    }
}

/// A domain, as it was when it was read.
#[derive(Debug)]
pub struct DomainSnapshot {
    inner: SourceDomain,
}

impl View for DomainSnapshot {
    type V = SourceDomainView;

    closed spec fn view(&self) -> SourceDomainView {
        self.inner@
    }
}

impl DomainSnapshot {
    pub fn from(this: SourceDomain) -> (snapshot: DomainSnapshot)
        ensures
            snapshot@ == this@,
    {
        DomainSnapshot { inner: this }
    }

    pub fn id(&self) -> (id: &str)
        ensures
            id@ == self@.domain,
    {
        self.inner.domain.as_str()
    }

    pub fn owner_id(&self) -> (owner: UserId)
        ensures
            owner == self@.owner_id,
    {
        self.inner.owner_id
    }

    pub fn abbrev(&self) -> (abbrev: &str)
        ensures
            abbrev@ == self@.abbrev,
    {
        self.inner.abbrev.as_str()
    }

    pub fn name(&self) -> (name: &str)
        ensures
            name@ == self@.name,
    {
        self.inner.name.as_str()
    }

    pub fn description(&self) -> (description: &str)
        ensures
            description@ == self@.description,
    {
        self.inner.description.as_str()
    }

    pub fn is_public(&self) -> (public: bool)
        ensures
            public == self@.is_public,
    {
        self.inner.is_public
    }

    pub fn script(&self) -> (script: &str)
        ensures
            script@ == self@.script,
    {
        self.inner.script.as_str()
    }

    /// Gives the domain new texts and a new visibility, in the store and in
    /// this snapshot. Texts that are too short or too long are refused, and
    /// nothing changes.
    pub fn update(
        &mut self,
        data: &mut Data,
        abbrev: String,
        name: String,
        description: String,
        is_public: bool,
        script: String,
    ) -> (res: Result<(), UpdateDomainError>)
        ensures
            old(data)@.well_formed() ==> final(data)@.well_formed(),
            match domain_texts_error(abbrev@, name@, description@, script@) {
                Some(e) => res == Err::<(), UpdateDomainError>(e) && final(data)@ == old(data)@
                    && final(self)@ == old(self)@,
                None => res is Ok && final(data)@ == old(data)@.with_domain_updated(
                    old(self)@.id,
                    abbrev@,
                    name@,
                    description@,
                    is_public,
                    script@,
                ) && final(self)@ == (SourceDomainView {
                    abbrev: abbrev@,
                    name: name@,
                    description: description@,
                    is_public,
                    script: script@,
                    ..old(self)@
                }),
            },
    {
        proof {
            if data@.well_formed() {
                lemma_domains_stay_unique(
                    data@,
                    Seq::empty(),
                    0,
                    self@.id,
                    abbrev@,
                    name@,
                    description@,
                    is_public,
                    script@,
                );
            }
        }
        check_domain_texts(abbrev.as_str(), name.as_str(), description.as_str(), script.as_str())?;
        let id = self.inner.id;
        let ghost changed = |d: SourceDomainView|
            if id is Some && d.id == id {
                SourceDomainView {
                    abbrev: abbrev@,
                    name: name@,
                    description: description@,
                    is_public,
                    script: script@,
                    ..d
                }
            } else {
                d
            };
        let abbrev_ref = &abbrev;
        let name_ref = &name;
        let description_ref = &description;
        let script_ref = &script;
        let change = |d: SourceDomain| -> (c: SourceDomain)
            ensures
                c@ == changed(d@),
            {
                if id.is_some() && same_id(d.id, id) {
                    SourceDomain {
                        id: d.id,
                        domain: d.domain,
                        abbrev: copy_str(abbrev_ref.as_str()),
                        name: copy_str(name_ref.as_str()),
                        description: copy_str(description_ref.as_str()),
                        owner_id: d.owner_id,
                        is_public,
                        script: copy_str(script_ref.as_str()),
                    }
                } else {
                    d
                }
            };
        let rows = take_rows(&mut data.source_domains);
        data.source_domains = change_each(rows, change, Ghost(changed));
        proof {
            assert(data@ =~~= old(data)@.with_domain_updated(
                old(self)@.id,
                abbrev@,
                name@,
                description@,
                is_public,
                script@,
            ));
        }
        self.inner.abbrev = abbrev;
        self.inner.name = name;
        self.inner.description = description;
        self.inner.is_public = is_public;
        self.inner.script = script;
        Ok(())
    }
}

/// Finds the greatest row id of a domain.
fn greatest_domain_id(domains: &Vec<SourceDomain>) -> (max: i32)
    ensures
        max == max_id(views(domains@).map_values(|d: SourceDomainView| d.id)),
        max >= 0,
{
    let ghost ids = views(domains@).map_values(|d: SourceDomainView| d.id);
    let mut max: i32 = 0;
    let mut i: usize = 0;
    while i < domains.len()
        invariant
            i <= domains@.len(),
            ids == views(domains@).map_values(|d: SourceDomainView| d.id),
            max == max_id(ids.take(i as int)),
            max >= 0,
        decreases domains@.len() - i,
    {
        proof {
            assert(ids.take(i + 1).drop_last() =~= ids.take(i as int));
            assert(ids.take(i + 1).last() == domains@[i as int]@.id);
        }
        match domains[i].id {
            Some(id) => {
                if id > max {
                    max = id;
                }
            },
            None => {},
        }
        i += 1;
    }
    assert(ids.take(i as int) =~= ids);
    max
}

/// Whether `user` is subscribed to the domain `domain`.
fn subscribed_to_domain(subs: &Vec<DomainSubscription>, user: UserId, domain: &str) -> (subscribed:
    bool)
    ensures
        subscribed == any_where(
            views(subs@),
            |s: DomainSubscriptionView| s.user_id == user && s.domain == domain@,
        ),
{
    let ghost pred = |s: DomainSubscriptionView| s.user_id == user && s.domain == domain@;
    let found = |s: &DomainSubscription| -> (b: bool)
        ensures
            b == pred(s@),
        { s.user_id == user && str_eq(s.domain.as_str(), domain) };
    let place = find_first(subs, found, Ghost(pred));
    proof {
        lemma_first_index(views(subs@), pred);
    }
    place.is_some()
}

impl Data {
    pub fn domain(&self, id: DomainId) -> (res: Result<Option<DomainSnapshot>, DataError>)
        ensures
            res matches Ok(found) && match (found, self@.domain(id)) {
                (Some(snapshot), Some(row)) => snapshot@ == row,
                (None, None) => true,
                _ => false,
            },
    {
        let ghost pred = |d: SourceDomainView| d.id == Some(id);
        let found = |d: &SourceDomain| -> (b: bool)
            ensures
                b == pred(d@),
            { same_id(d.id, Some(id)) };
        match find_first(&self.source_domains, found, Ghost(pred)) {
            Some(i) => Ok(Some(DomainSnapshot::from(self.source_domains[i].copy()))),
            None => Ok(None),
        }
    }

    pub fn domain_by_domain_id(&self, id: &str) -> (res: Result<Option<DomainSnapshot>, DataError>)
        ensures
            res matches Ok(found) && match (found, self@.domain_by_domain_id(id@)) {
                (Some(snapshot), Some(row)) => snapshot@ == row && row.domain == id@,
                (None, None) => true,
                _ => false,
            },
    {
        let ghost pred = |d: SourceDomainView| d.domain == id@;
        let found = |d: &SourceDomain| -> (b: bool)
            ensures
                b == pred(d@),
            { str_eq(d.domain.as_str(), id) };
        let place = find_first(&self.source_domains, found, Ghost(pred));
        proof {
            lemma_first_index(self@.source_domains, pred);
        }
        match place {
            Some(i) => Ok(Some(DomainSnapshot::from(self.source_domains[i].copy()))),
            None => Ok(None),
        }
    }

    /// Returns true if the given domain id is currently taken.
    pub fn is_domain_id_taken(&self, name: &str) -> (res: Result<bool, DataError>)
        ensures
            res == Ok::<bool, DataError>(self@.is_domain_id_taken(name@)),
    {
        let ghost pred = |d: SourceDomainView| d.domain == name@;
        let found = |d: &SourceDomain| -> (b: bool)
            ensures
                b == pred(d@),
            { str_eq(d.domain.as_str(), name) };
        let place = find_first(&self.source_domains, found, Ghost(pred));
        proof {
            lemma_first_index(self@.source_domains, pred);
        }
        Ok(place.is_some())
    }

    /// Generates a new, almost certainly unique domain id: draws ids until
    /// one is free, and gives up after `MAX_ID_ATTEMPTS` draws.
    pub fn gen_domain_id(&self) -> (res: Result<String, DataError>)
        ensures
            res matches Ok(id) ==> is_generated_id(id@) && !self@.is_domain_id_taken(id@),
            res matches Err(e) ==> e == DataError::Database,
    {
        let mut attempts: usize = 0;
        while attempts < MAX_ID_ATTEMPTS
            invariant
                attempts <= MAX_ID_ATTEMPTS,
            decreases MAX_ID_ATTEMPTS - attempts,
        {
            let id = gen_domain_id();
            match self.is_domain_id_taken(id.as_str()) {
                Ok(false) => {
                    return Ok(id);
                },
                _ => {},
            }
            attempts += 1;
        }
        Err(DataError::Database)
    }

    /// Adds a domain with the identifier `id` for `owner`. Fails, and changes
    /// nothing, where the row ids are used up.
    pub fn insert_domain(&mut self, owner_id: UserId, id: &str, abbrev: &str, name: &str) -> (res:
        Result<(), DataError>)
        ensures
            old(self)@.well_formed() && !old(self)@.is_domain_id_taken(id@)
                ==> final(self)@.well_formed(),
            old(self)@.max_domain_id() >= i32::MAX ==> res == Err::<(), DataError>(
                DataError::Database,
            ) && final(self)@ == old(self)@,
            old(self)@.max_domain_id() < i32::MAX ==> res is Ok && final(self)@ == old(
                self,
            )@.with_new_domain(id@, owner_id, abbrev@, name@),
    {
        proof {
            if self@.well_formed() {
                lemma_domains_stay_unique(
                    self@,
                    id@,
                    owner_id,
                    None,
                    abbrev@,
                    name@,
                    Seq::empty(),
                    false,
                    Seq::empty(),
                );
            }
        }
        let max = greatest_domain_id(&self.source_domains);
        if max >= i32::MAX {
            return Err(DataError::Database);
        }
        let ghost before = self.source_domains@;
        let ghost row = new_domain((max + 1) as i32, id@, owner_id, abbrev@, name@);
        self.source_domains.push(
            SourceDomain {
                id: Some(max + 1),
                domain: copy_str(id),
                abbrev: copy_str(abbrev),
                name: copy_str(name),
                description: String::new(),
                owner_id,
                is_public: false,
                script: copy_str(DEFAULT_SCRIPT),
            },
        );
        proof {
            assert(views(self.source_domains@) =~= views(before).push(row));
            assert(self@ =~~= old(self)@.with_new_domain(id@, owner_id, abbrev@, name@));
        }
        Ok(())
    }

    /// Creates a new domain and returns its id.
    ///
    /// An abbrev or a name that is too short or too long is refused. The id
    /// is a generated one that no domain had.
    pub fn create_domain(&mut self, owner_id: UserId, abbrev: &str, name: &str) -> (res: Result<
        String,
        UpdateDomainError,
    >)
        ensures
            old(self)@.well_formed() ==> final(self)@.well_formed(),
            abbrev_or_name_error(abbrev@, name@) matches Some(e) ==> res == Err::<
                String,
                UpdateDomainError,
            >(e),
            abbrev_or_name_error(abbrev@, name@) is None ==> res is Ok || res == Err::<
                String,
                UpdateDomainError,
            >(UpdateDomainError::Data(DataError::Database)),
            res is Err ==> final(self)@ == old(self)@,
            res matches Ok(id) ==> is_generated_id(id@) && !old(self)@.is_domain_id_taken(id@)
                && final(self)@ == old(self)@.with_new_domain(id@, owner_id, abbrev@, name@),
    {
        check_abbrev_and_name(abbrev, name)?;
        let id = match self.gen_domain_id() {
            Ok(id) => id,
            Err(e) => {
                return Err(UpdateDomainError::Data(e));
            },
        };
        match self.insert_domain(owner_id, id.as_str(), abbrev, name) {
            Ok(()) => Ok(id),
            Err(e) => Err(UpdateDomainError::Data(e)),
        }
    }

    pub fn delete_domain(&mut self, domain: &DomainSnapshot) -> (res: Result<(), DataError>)
        ensures
            old(self)@.well_formed() ==> final(self)@.well_formed(),
            res is Ok,
            final(self)@ == old(self)@.without_domain(domain@.id),
    {
        proof {
            if self@.well_formed() {
                lemma_domains_stay_unique(
                    self@,
                    Seq::empty(),
                    0,
                    domain@.id,
                    Seq::empty(),
                    Seq::empty(),
                    Seq::empty(),
                    false,
                    Seq::empty(),
                );
            }
        }
        let id = domain.inner.id;
        let ghost pred = |d: SourceDomainView| !(id is Some && d.id == id);
        let keep = |d: &SourceDomain| -> (b: bool)
            ensures
                b == pred(d@),
            { !(id.is_some() && same_id(d.id, id)) };
        let rows = take_rows(&mut self.source_domains);
        self.source_domains = retain(rows, keep, Ghost(pred));
        proof {
            assert(self@ =~~= old(self)@.without_domain(domain@.id));
        }
        Ok(())
    }

    pub fn is_user_subscribed(&self, user_id: UserId, domain: &DomainSnapshot) -> (res: Result<
        bool,
        DataError,
    >)
        ensures
            res == Ok::<bool, DataError>(self@.is_subscribed_to_domain(user_id, domain@.domain)),
    {
        Ok(subscribed_to_domain(&self.user_source_domain_subscriptions, user_id, domain.id()))
    }

    pub fn user_subscribe_domain(&mut self, user_id: UserId, domain: &DomainSnapshot) -> (res:
        Result<(), DataError>)
        ensures
            old(self)@.well_formed() && !old(self)@.is_subscribed_to_domain(user_id, domain@.domain)
                ==> final(self)@.well_formed(),
            res is Ok,
            final(self)@ == old(self)@.subscribe_domain(user_id, domain@.domain),
    {
        proof {
            if self@.well_formed() {
                lemma_subscriptions_stay_unique(self@, user_id, domain@.domain);
            }
        }
        let ghost before = self.user_source_domain_subscriptions@;
        self.user_source_domain_subscriptions.push(
            DomainSubscription { user_id, domain: copy_str(domain.id()) },
        );
        proof {
            assert(views(self.user_source_domain_subscriptions@) =~= views(before).push(
                DomainSubscriptionView { user_id, domain: domain@.domain },
            ));
            assert(self@ =~~= old(self)@.subscribe_domain(user_id, domain@.domain));
        }
        Ok(())
    }

    pub fn user_unsubscribe_domain(&mut self, user_id: UserId, domain: &DomainSnapshot) -> (res:
        Result<(), DataError>)
        ensures
            old(self)@.well_formed() ==> final(self)@.well_formed(),
            res is Ok,
            final(self)@ == old(self)@.unsubscribe_domain(user_id, domain@.domain),
    {
        proof {
            if self@.well_formed() {
                lemma_subscriptions_stay_unique(self@, user_id, domain@.domain);
            }
        }
        let id = domain.id();
        let ghost pred = |s: DomainSubscriptionView| !(s.user_id == user_id && s.domain == id@);
        let keep = |s: &DomainSubscription| -> (b: bool)
            ensures
                b == pred(s@),
            { !(s.user_id == user_id && str_eq(s.domain.as_str(), id)) };
        let rows = take_rows(&mut self.user_source_domain_subscriptions);
        self.user_source_domain_subscriptions = retain(rows, keep, Ghost(pred));
        proof {
            assert(self@ =~~= old(self)@.unsubscribe_domain(user_id, domain@.domain));
        }
        Ok(())
    }

    /// The identifiers of the domains that the user owns or is subscribed
    /// to, in the order of their abbrevs.
    pub fn user_full_domain_ids(&self, user_id: UserId) -> (res: Result<Vec<String>, DataError>)
        ensures
            res matches Ok(ids) && views(ids@) == self@.user_full_domain_ids(user_id),
    {
        let ghost view = self@;
        let ghost all = self@.source_domains;
        let ghost of_user = |d: SourceDomainView| view.domain_is_of_user(user_id, d);
        // the places of the user's domains in the table, in the order of the abbrevs
        let mut order: Vec<usize> = Vec::new();
        let mut i: usize = 0;
        proof {
            broadcast use vstd::seq_lib::group_filter_ensures;

            assert(all.take(0).filter(of_user) =~= Seq::<SourceDomainView>::empty());
        }
        while i < self.source_domains.len()
            invariant
                i <= self.source_domains@.len(),
                view == self@,
                all == views(self.source_domains@),
                of_user == (|d: SourceDomainView| view.domain_is_of_user(user_id, d)),
                forall|j: int| 0 <= j < order@.len() ==> #[trigger] order@[j] < i,
                Seq::new(order@.len(), |j: int| all[order@[j] as int]) == ordered_by_abbrev(
                    all.take(i as int).filter(of_user),
                ),
            decreases self.source_domains@.len() - i,
        {
            let d = &self.source_domains[i];
            let ghost sorted = Seq::new(order@.len(), |j: int| all[order@[j] as int]);
            proof {
                assert(all.take(i + 1) =~= all.take(i as int).push(all[i as int]));
                Seq::lemma_filter_push(all.take(i as int), all[i as int], of_user);
            }
            if d.owner_id == user_id || subscribed_to_domain(
                &self.user_source_domain_subscriptions,
                user_id,
                d.domain.as_str(),
            ) {
                let ghost before = ordered_by_abbrev(all.take(i as int).filter(of_user));
                let ghost after = |x: SourceDomainView|
                    bytes_before(encode_utf8(all[i as int].abbrev), encode_utf8(x.abbrev));
                let mut k: usize = 0;
                while k < order.len() && !bytes_lt(
                    d.abbrev.as_str().as_bytes(),
                    self.source_domains[order[k]].abbrev.as_str().as_bytes(),
                )
                    invariant
                        k <= order@.len(),
                        i < self.source_domains@.len(),
                        all == views(self.source_domains@),
                        d == self.source_domains@[i as int],
                        sorted == Seq::new(order@.len(), |j: int| all[order@[j] as int]),
                        forall|j: int| 0 <= j < order@.len() ==> #[trigger] order@[j] < i,
                        after == (|x: SourceDomainView|
                            bytes_before(
                                encode_utf8(all[i as int].abbrev),
                                encode_utf8(x.abbrev),
                            )),
                        forall|j: int| 0 <= j < k ==> !after(#[trigger] sorted[j]),
                    decreases order@.len() - k,
                {
                    k += 1;
                }
                proof {
                    if k < order@.len() {
                        lemma_first_index_is(sorted, after, k as int);
                    } else {
                        lemma_first_index_none(sorted, after);
                    }
                    assert(place_by_abbrev(sorted, all[i as int].abbrev) == k);
                    assert((all.take(i as int).filter(of_user).push(all[i as int])).drop_last()
                        =~= all.take(i as int).filter(of_user));
                }
                let ghost order_before = order@;
                order.insert(k, i);
                proof {
                    assert(Seq::new(order@.len(), |j: int| all[order@[j] as int]) =~= sorted.insert(
                        k as int,
                        all[i as int],
                    ));
                }
            }
            i += 1;
        }
        assert(all.take(i as int) =~= all);
        let ghost sorted = ordered_by_abbrev(all.filter(of_user));
        let mut ids: Vec<String> = Vec::new();
        let mut j: usize = 0;
        while j < order.len()
            invariant
                j <= order@.len(),
                all == views(self.source_domains@),
                forall|m: int| 0 <= m < order@.len() ==> #[trigger] order@[m] < all.len(),
                sorted == Seq::new(order@.len(), |m: int| all[order@[m] as int]),
                ids@.len() == j,
                forall|m: int| 0 <= m < j ==> (#[trigger] ids@[m])@ == sorted[m].domain,
            decreases order@.len() - j,
        {
            ids.push(copy_str(self.source_domains[order[j]].domain.as_str()));
            j += 1;
        }
        assert(views(ids@) =~= sorted.map_values(|d: SourceDomainView| d.domain));
        Ok(ids)
    }

    /// The identifiers of the public domains.
    pub fn public_domain_ids(&self) -> (res: Result<Vec<String>, DataError>)
        ensures
            res matches Ok(ids) && views(ids@) == self@.public_domain_ids(),
    {
        let ghost chosen = |d: SourceDomainView|
            if d.is_public {
                Some(d.domain)
            } else {
                None
            };
        let pick = |d: &SourceDomain| -> (u: Option<String>)
            ensures
                match (u, chosen(d@)) {
                    (Some(a), Some(b)) => a@ == b,
                    (None, None) => true,
                    _ => false,
                },
            {
                if d.is_public {
                    Some(copy_str(d.domain.as_str()))
                } else {
                    None
                }
            };
        Ok(select(&self.source_domains, pick, Ghost(chosen)))
    }
}

} // verus!
