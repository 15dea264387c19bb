//! The filter policy: a pure keep/drop decision over a normalized record
//! and a snapshot of the user's criteria.

use vstd::prelude::*;
use vstd::string::StrSliceExecFns;
use vstd::string::StringExecFns;
use crate::record::RecordV;
use crate::record::ServerRecord;
use crate::text::contains_str;
use crate::text::has_substring;
use crate::text::lower_of;
use crate::text::str_eq;
use crate::text::to_lower;
use crate::text::to_upper;
use crate::text::upper_of;

verus! {

/// The user's constraints, snapshotted by value at request time.
pub struct FilterCriteria {
    pub min_players: u32,
    pub max_players: u32,
    pub banned_countries: Vec<String>,
    pub filter_name: String,
    pub filter_map: String,
    pub filter_mode: String,
}

/// Mathematical model of the criteria; the banned countries form a set,
/// unordered and without duplicates.
#[verifier::ext_equal]
pub struct CriteriaV {
    pub min_players: u32,
    pub max_players: u32,
    pub banned: Set<Seq<char>>,
    pub filter_name: Seq<char>,
    pub filter_map: Seq<char>,
    pub filter_mode: Seq<char>,
}

impl View for FilterCriteria {
    type V = CriteriaV;

    open spec fn view(&self) -> CriteriaV {
        CriteriaV {
            min_players: self.min_players,
            max_players: self.max_players,
            banned: self.banned_countries.deep_view().to_set(),
            filter_name: self.filter_name@,
            filter_map: self.filter_map@,
            filter_mode: self.filter_mode@,
        }
    }
}

impl Clone for FilterCriteria {
    /// A clone models the same criteria; snapshotting at request time
    /// relies on this.
    fn clone(&self) -> (r: Self)
        ensures
            r@ == self@,
    {
        let r = FilterCriteria {
            min_players: self.min_players,
            max_players: self.max_players,
            banned_countries: self.banned_countries.clone(),
            filter_name: self.filter_name.clone(),
            filter_map: self.filter_map.clone(),
            filter_mode: self.filter_mode.clone(),
        };
        proof {
            assert(r.banned_countries.deep_view() =~= self.banned_countries.deep_view());
            assert(r@ =~= self@);
        }
        r
    }
}

/// The country code exempted from every ban rule.
pub open spec fn home_country() -> Seq<char> {
    "UA"@
}

/// Name substrings that drop a record when the matching country is banned,
/// checked against the upper-cased server name.
pub open spec fn ru_ban_words() -> Seq<Seq<char>> {
    seq!["RUSSIA"@, "MOSCOW"@, "SPB"@, "USSR"@, "ZOV"@, "WAGNER"@, "[RU]"@]
}

/// See [`ru_ban_words`].
pub open spec fn cn_ban_words() -> Seq<Seq<char>> {
    seq!["CHINESE"@, "ASIA"@, "[CN]"@, "QQ"@, "DOUYU"@]
}

/// Some word of `words` occurs in `name_upper`.
pub open spec fn matches_any(name_upper: Seq<char>, words: Seq<Seq<char>>) -> bool {
    exists|i: int| 0 <= i < words.len() && has_substring(name_upper, words[i])
}

/// The ban rules drop the record: its country is not the home country, and
/// either its declared country is banned, or a banned country's name
/// heuristic matches the upper-cased server name.
pub open spec fn ban_drop(banned: Set<Seq<char>>, country: Seq<char>, name_upper: Seq<char>) -> bool {
    country != home_country() && {
        ||| banned.contains(country)
        ||| banned.contains("RU"@) && matches_any(name_upper, ru_ban_words())
        ||| banned.contains("CN"@) && matches_any(name_upper, cn_ban_words())
    }
}

/// Every free-text filter that is set matches the lower-cased field it
/// applies to.
pub open spec fn passes_text_filters(c: CriteriaV, r: RecordV) -> bool {
    &&& (c.filter_name.len() == 0 || has_substring(lower_of(r.name), lower_of(c.filter_name)))
    &&& (c.filter_map.len() == 0 || has_substring(lower_of(r.map), lower_of(c.filter_map)))
    &&& (c.filter_mode.len() == 0 || has_substring(lower_of(r.mode), lower_of(c.filter_mode)))
}

/// The record is kept: no ban rule drops it and every set filter matches.
pub open spec fn keep_spec(c: CriteriaV, r: RecordV) -> bool {
    &&& !ban_drop(c.banned, r.country, upper_of(r.name))
    &&& passes_text_filters(c, r)
}

/// [`keep_spec`] restated over already-folded text: `name_upper` stands for
/// the upper-cased server name, the `*_lower` arguments for the lower-cased
/// fields and filters. A filter is off when its argument is empty.
pub open spec fn keep_folded_spec(
    banned: Set<Seq<char>>,
    country: Seq<char>,
    name_upper: Seq<char>,
    name_lower: Seq<char>,
    map_lower: Seq<char>,
    mode_lower: Seq<char>,
    f_name: Seq<char>,
    f_map: Seq<char>,
    f_mode: Seq<char>,
) -> bool {
    &&& !ban_drop(banned, country, name_upper)
    &&& (f_name.len() == 0 || has_substring(name_lower, f_name))
    &&& (f_map.len() == 0 || has_substring(map_lower, f_map))
    &&& (f_mode.len() == 0 || has_substring(mode_lower, f_mode))
}

/// Membership of a code in a country list, by character-wise comparison.
pub fn contains_code(list: &Vec<String>, code: &str) -> (r: bool)
    ensures
        r == list.deep_view().to_set().contains(code@),
{
    let mut i: usize = 0;
    while i < list.len()
        invariant
            i <= list.len(),
            forall|j: int| 0 <= j < i ==> list.deep_view()[j] != code@,
        decreases list.len() - i,
    {
        if str_eq(list[i].as_str(), code) {
            proof {
                assert(list.deep_view()[i as int] == code@);
                assert(list.deep_view().contains(code@));
            }
            return true;
        }
        i += 1;
    }
    proof {
        assert(!list.deep_view().contains(code@));
    }
    false
}

fn matches_any_exec(name_upper: &str, words: &Vec<String>) -> (r: bool)
    ensures
        r == matches_any(name_upper@, words.deep_view()),
{
    let mut i: usize = 0;
    while i < words.len()
        invariant
            i <= words.len(),
            forall|j: int| 0 <= j < i ==> !has_substring(name_upper@, words.deep_view()[j]),
        decreases words.len() - i,
    {
        if contains_str(name_upper, words[i].as_str()) {
            proof {
                assert(has_substring(name_upper@, words.deep_view()[i as int]));
            }
            return true;
        }
        i += 1;
    }
    false
}

/// The word list behind the heuristic for banned country "RU".
pub fn ru_ban_word_list() -> (r: Vec<String>)
    ensures
        r.deep_view() == ru_ban_words(),
{
    let mut v: Vec<String> = Vec::new();
    v.push(String::from_str("RUSSIA"));
    v.push(String::from_str("MOSCOW"));
    v.push(String::from_str("SPB"));
    v.push(String::from_str("USSR"));
    v.push(String::from_str("ZOV"));
    v.push(String::from_str("WAGNER"));
    v.push(String::from_str("[RU]"));
    proof {
        assert(v.deep_view() =~= ru_ban_words());
    }
    v
}

/// The word list behind the heuristic for banned country "CN".
pub fn cn_ban_word_list() -> (r: Vec<String>)
    ensures
        r.deep_view() == cn_ban_words(),
{
    let mut v: Vec<String> = Vec::new();
    v.push(String::from_str("CHINESE"));
    v.push(String::from_str("ASIA"));
    v.push(String::from_str("[CN]"));
    v.push(String::from_str("QQ"));
    v.push(String::from_str("DOUYU"));
    proof {
        assert(v.deep_view() =~= cn_ban_words());
    }
    v
}

/// The keep/drop decision over already-folded text; the text-folding
/// callers pass the upper- and lower-cased fields in.
pub fn keep_folded(
    banned: &Vec<String>,
    country: &str,
    name_upper: &str,
    name_lower: &str,
    map_lower: &str,
    mode_lower: &str,
    f_name: &str,
    f_map: &str,
    f_mode: &str,
) -> (b: bool)
    ensures
        b == keep_folded_spec(
            banned.deep_view().to_set(),
            country@,
            name_upper@,
            name_lower@,
            map_lower@,
            mode_lower@,
            f_name@,
            f_map@,
            f_mode@,
        ),
{
    if !str_eq(country, "UA") {
        if contains_code(banned, country) {
            return false;
        }
        if contains_code(banned, "RU") {
            let words = ru_ban_word_list();
            if matches_any_exec(name_upper, &words) {
                return false;
            }
        }
        if contains_code(banned, "CN") {
            let words = cn_ban_word_list();
            if matches_any_exec(name_upper, &words) {
                return false;
            }
        }
    }
    if f_name.unicode_len() > 0 && !contains_str(name_lower, f_name) {
        return false;
    }
    if f_map.unicode_len() > 0 && !contains_str(map_lower, f_map) {
        return false;
    }
    if f_mode.unicode_len() > 0 && !contains_str(mode_lower, f_mode) {
        return false;
    }
    true
}

/// The keep/drop decision for one normalized record.
pub fn keep(r: &ServerRecord, c: &FilterCriteria) -> (b: bool)
    ensures
        b == keep_spec(c@, r@),
{
    let name_upper = to_upper(r.name.as_str());
    let name_lower = to_lower(r.name.as_str());
    let map_lower = to_lower(r.map.as_str());
    let mode_lower = to_lower(r.mode.as_str());
    let f_name = to_lower(c.filter_name.as_str());
    let f_map = to_lower(c.filter_map.as_str());
    let f_mode = to_lower(c.filter_mode.as_str());
    keep_folded(
        &c.banned_countries,
        r.country.as_str(),
        name_upper.as_str(),
        name_lower.as_str(),
        map_lower.as_str(),
        mode_lower.as_str(),
        f_name.as_str(),
        f_map.as_str(),
        f_mode.as_str(),
    )
}

/// Home-country exemption: whatever the ban lists hold, a record whose
/// country is the home country is never dropped by the country ban or the
/// name heuristics; only the free-text filters decide for it.
pub proof fn lemma_home_country_exempt(c: CriteriaV, r: RecordV)
    requires
        r.country == home_country(),
    ensures
        !ban_drop(c.banned, r.country, upper_of(r.name)),
        keep_spec(c, r) == passes_text_filters(c, r),
{
}

impl FilterCriteria {
    /// Add a country code to the banned set; a code already present is
    /// not duplicated.
    pub fn ban_country(&mut self, code: &str)
        ensures
            final(self)@ == (CriteriaV { banned: old(self)@.banned.insert(code@), ..old(self)@ }),
    {
        broadcast use vstd::seq_lib::lemma_seq_contains_after_push;

        if !contains_code(&self.banned_countries, code) {
            let ghost before = self.banned_countries.deep_view();
            self.banned_countries.push(String::from_str(code));
            proof {
                assert(self.banned_countries.deep_view() =~= before.push(code@));
                assert(self.banned_countries.deep_view().to_set() =~= before.to_set().insert(
                    code@,
                ));
                assert(self@ =~= (CriteriaV { banned: old(self)@.banned.insert(code@), ..old(
                    self,
                )@ }));
            }
        } else {
            proof {
                assert(self@.banned =~= old(self)@.banned.insert(code@));
                assert(self@ =~= (CriteriaV { banned: old(self)@.banned.insert(code@), ..old(
                    self,
                )@ }));
            }
        }
    }

    /// Remove a country code from the banned set.
    pub fn unban_country(&mut self, code: &str)
        ensures
            final(self)@ == (CriteriaV { banned: old(self)@.banned.remove(code@), ..old(self)@ }),
    {
        broadcast use vstd::seq_lib::lemma_seq_contains_after_push;

        let ghost before = self.banned_countries.deep_view();
        let mut kept: Vec<String> = Vec::new();
        let mut i: usize = 0;
        while i < self.banned_countries.len()
            invariant
                i <= self.banned_countries.len(),
                before == self.banned_countries.deep_view(),
                forall|x: Seq<char>|
                    kept.deep_view().contains(x) <==> (before.take(i as int).contains(x) && x
                        != code@),
            decreases self.banned_countries.len() - i,
        {
            let ghost kept_before = kept.deep_view();
            let ghost prefix = before.take(i as int);
            if !str_eq(self.banned_countries[i].as_str(), code) {
                kept.push(self.banned_countries[i].clone());
                proof {
                    assert(kept.deep_view() =~= kept_before.push(before[i as int]));
                    assert(before.take(i + 1) =~= prefix.push(before[i as int]));
                    assert forall|x: Seq<char>|
                        kept.deep_view().contains(x) <==> (before.take(i + 1).contains(x) && x
                            != code@) by {
                        vstd::seq_lib::lemma_seq_contains_after_push(
                            kept_before,
                            before[i as int],
                            x,
                        );
                        vstd::seq_lib::lemma_seq_contains_after_push(prefix, before[i as int], x);
                    }
                }
            } else {
                proof {
                    assert(before.take(i + 1) =~= prefix.push(before[i as int]));
                    assert forall|x: Seq<char>|
                        kept.deep_view().contains(x) <==> (before.take(i + 1).contains(x) && x
                            != code@) by {
                        vstd::seq_lib::lemma_seq_contains_after_push(prefix, before[i as int], x);
                    }
                }
            }
            i += 1;
        }
        proof {
            assert(before.take(self.banned_countries.len() as int) =~= before);
        }
        self.banned_countries = kept;
        proof {
            assert(self.banned_countries.deep_view().to_set() =~= old(self)@.banned.remove(code@));
            assert(self@ =~= (CriteriaV { banned: old(self)@.banned.remove(code@), ..old(self)@ }));
        }
    }

    /// Membership in the banned set.
    pub fn is_banned(&self, code: &str) -> (r: bool)
        ensures
            r == self@.banned.contains(code@),
    {
        contains_code(&self.banned_countries, code)
    }
}

} // verus!
