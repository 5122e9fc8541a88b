//! The pattern catalog: the recognised (front-end callee, native callee)
//! pairs, what each becomes in the emitted language, and the relevance
//! search that diagnostics use to suggest alternatives.

use vstd::prelude::*;

use crate::text::{contains, lex_le, lex_le_str, lemma_lex_le_total, lemma_lex_le_trans, occurs_in};
use crate::unified::UnificationPattern;

verus! {

/// The catalog's patterns, in its stable order.
pub open spec fn catalog() -> Seq<UnificationPattern> {
    seq![UnificationPattern::LenPattern, UnificationPattern::AppendPattern, UnificationPattern::DictGetPattern, UnificationPattern::ReversePattern, UnificationPattern::ClearPattern, UnificationPattern::PopPattern, UnificationPattern::InsertPattern, UnificationPattern::ExtendPattern, UnificationPattern::DictPopPattern, UnificationPattern::DictClearPattern, UnificationPattern::DictKeysPattern]
}

/// Position of a pattern in the catalog; the extension point has none.
pub open spec fn pattern_index(p: UnificationPattern) -> int {
    match p {
        UnificationPattern::LenPattern => 0,
        UnificationPattern::AppendPattern => 1,
        UnificationPattern::DictGetPattern => 2,
        UnificationPattern::ReversePattern => 3,
        UnificationPattern::ClearPattern => 4,
        UnificationPattern::PopPattern => 5,
        UnificationPattern::InsertPattern => 6,
        UnificationPattern::ExtendPattern => 7,
        UnificationPattern::DictPopPattern => 8,
        UnificationPattern::DictClearPattern => 9,
        UnificationPattern::DictKeysPattern => 10,
        UnificationPattern::Custom => -1,
    }
}

/// The front-end callee name of a catalog pattern.
pub open spec fn front_callee(p: UnificationPattern) -> Seq<char> {
    match p {
        UnificationPattern::LenPattern => "len"@,
        UnificationPattern::AppendPattern => "append"@,
        UnificationPattern::DictGetPattern => "get"@,
        UnificationPattern::ReversePattern => "reverse"@,
        UnificationPattern::ClearPattern => "clear"@,
        UnificationPattern::PopPattern => "pop"@,
        UnificationPattern::InsertPattern => "insert"@,
        UnificationPattern::ExtendPattern => "extend"@,
        UnificationPattern::DictPopPattern => "dict_pop"@,
        UnificationPattern::DictClearPattern => "dict_clear"@,
        UnificationPattern::DictKeysPattern => "keys"@,
        UnificationPattern::Custom => Seq::empty(),
    }
}

/// The native function name of a catalog pattern.
pub open spec fn native_callee(p: UnificationPattern) -> Seq<char> {
    match p {
        UnificationPattern::LenPattern => "list_length"@,
        UnificationPattern::AppendPattern => "PyList_Append"@,
        UnificationPattern::DictGetPattern => "PyDict_GetItem"@,
        UnificationPattern::ReversePattern => "list_reverse"@,
        UnificationPattern::ClearPattern => "list_clear"@,
        UnificationPattern::PopPattern => "list_pop"@,
        UnificationPattern::InsertPattern => "list_insert"@,
        UnificationPattern::ExtendPattern => "list_extend"@,
        UnificationPattern::DictPopPattern => "PyDict_DelItem"@,
        UnificationPattern::DictClearPattern => "PyDict_Clear"@,
        UnificationPattern::DictKeysPattern => "PyDict_Keys"@,
        UnificationPattern::Custom => Seq::empty(),
    }
}

/// The emitted callee of a catalog pattern.
pub open spec fn target_callee(p: UnificationPattern) -> Seq<char> {
    match p {
        UnificationPattern::LenPattern => "Vec::len"@,
        UnificationPattern::AppendPattern => "Vec::push"@,
        UnificationPattern::DictGetPattern => "HashMap::get"@,
        UnificationPattern::ReversePattern => "Vec::reverse"@,
        UnificationPattern::ClearPattern => "Vec::clear"@,
        UnificationPattern::PopPattern => "Vec::pop"@,
        UnificationPattern::InsertPattern => "Vec::insert"@,
        UnificationPattern::ExtendPattern => "Vec::extend"@,
        UnificationPattern::DictPopPattern => "HashMap::remove"@,
        UnificationPattern::DictClearPattern => "HashMap::clear"@,
        UnificationPattern::DictKeysPattern => "HashMap::keys"@,
        UnificationPattern::Custom => Seq::empty(),
    }
}

/// How diagnostics show the front-end side of a pattern.
pub open spec fn shown_front(p: UnificationPattern) -> Seq<char> {
    match p {
        UnificationPattern::LenPattern => "len()"@,
        UnificationPattern::AppendPattern => "append()"@,
        UnificationPattern::DictGetPattern => "get()"@,
        UnificationPattern::ReversePattern => "reverse()"@,
        UnificationPattern::ClearPattern => "clear()"@,
        UnificationPattern::PopPattern => "pop()"@,
        UnificationPattern::InsertPattern => "insert()"@,
        UnificationPattern::ExtendPattern => "extend()"@,
        UnificationPattern::DictPopPattern => "dict_pop()"@,
        UnificationPattern::DictClearPattern => "dict_clear()"@,
        UnificationPattern::DictKeysPattern => "keys()"@,
        UnificationPattern::Custom => Seq::empty(),
    }
}

/// How diagnostics show the native side of a pattern.
pub open spec fn shown_native(p: UnificationPattern) -> Seq<char> {
    match p {
        UnificationPattern::LenPattern => "list_length()"@,
        UnificationPattern::AppendPattern => "PyList_Append()"@,
        UnificationPattern::DictGetPattern => "PyDict_GetItem()"@,
        UnificationPattern::ReversePattern => "list_reverse()"@,
        UnificationPattern::ClearPattern => "list_clear()"@,
        UnificationPattern::PopPattern => "list_pop()"@,
        UnificationPattern::InsertPattern => "list_insert()"@,
        UnificationPattern::ExtendPattern => "list_extend()"@,
        UnificationPattern::DictPopPattern => "PyDict_DelItem()"@,
        UnificationPattern::DictClearPattern => "PyDict_Clear()"@,
        UnificationPattern::DictKeysPattern => "PyDict_Keys()"@,
        UnificationPattern::Custom => Seq::empty(),
    }
}

/// How diagnostics show what a pattern becomes.
pub open spec fn shown_target(p: UnificationPattern) -> Seq<char> {
    match p {
        UnificationPattern::LenPattern => "Vec::len()"@,
        UnificationPattern::AppendPattern => "Vec::push()"@,
        UnificationPattern::DictGetPattern => "HashMap::get()"@,
        UnificationPattern::ReversePattern => "Vec::reverse()"@,
        UnificationPattern::ClearPattern => "Vec::clear()"@,
        UnificationPattern::PopPattern => "Vec::pop()"@,
        UnificationPattern::InsertPattern => "Vec::insert()"@,
        UnificationPattern::ExtendPattern => "Vec::extend()"@,
        UnificationPattern::DictPopPattern => "HashMap::remove()"@,
        UnificationPattern::DictClearPattern => "HashMap::clear()"@,
        UnificationPattern::DictKeysPattern => "HashMap::keys()"@,
        UnificationPattern::Custom => Seq::empty(),
    }
}

/// The front-end callee name of a catalog pattern.
pub fn front_callee_name(p: UnificationPattern) -> (r: &'static str)
    requires
        p != UnificationPattern::Custom,
    ensures
        r@ == front_callee(p),
{
    match p {
        UnificationPattern::LenPattern => "len",
        UnificationPattern::AppendPattern => "append",
        UnificationPattern::DictGetPattern => "get",
        UnificationPattern::ReversePattern => "reverse",
        UnificationPattern::ClearPattern => "clear",
        UnificationPattern::PopPattern => "pop",
        UnificationPattern::InsertPattern => "insert",
        UnificationPattern::ExtendPattern => "extend",
        UnificationPattern::DictPopPattern => "dict_pop",
        UnificationPattern::DictClearPattern => "dict_clear",
        UnificationPattern::DictKeysPattern => "keys",
        UnificationPattern::Custom => "",
    }
}

/// The native function name of a catalog pattern.
pub fn native_callee_name(p: UnificationPattern) -> (r: &'static str)
    requires
        p != UnificationPattern::Custom,
    ensures
        r@ == native_callee(p),
{
    match p {
        UnificationPattern::LenPattern => "list_length",
        UnificationPattern::AppendPattern => "PyList_Append",
        UnificationPattern::DictGetPattern => "PyDict_GetItem",
        UnificationPattern::ReversePattern => "list_reverse",
        UnificationPattern::ClearPattern => "list_clear",
        UnificationPattern::PopPattern => "list_pop",
        UnificationPattern::InsertPattern => "list_insert",
        UnificationPattern::ExtendPattern => "list_extend",
        UnificationPattern::DictPopPattern => "PyDict_DelItem",
        UnificationPattern::DictClearPattern => "PyDict_Clear",
        UnificationPattern::DictKeysPattern => "PyDict_Keys",
        UnificationPattern::Custom => "",
    }
}

/// The emitted callee of a catalog pattern.
pub fn target_callee_name(p: UnificationPattern) -> (r: &'static str)
    requires
        p != UnificationPattern::Custom,
    ensures
        r@ == target_callee(p),
{
    match p {
        UnificationPattern::LenPattern => "Vec::len",
        UnificationPattern::AppendPattern => "Vec::push",
        UnificationPattern::DictGetPattern => "HashMap::get",
        UnificationPattern::ReversePattern => "Vec::reverse",
        UnificationPattern::ClearPattern => "Vec::clear",
        UnificationPattern::PopPattern => "Vec::pop",
        UnificationPattern::InsertPattern => "Vec::insert",
        UnificationPattern::ExtendPattern => "Vec::extend",
        UnificationPattern::DictPopPattern => "HashMap::remove",
        UnificationPattern::DictClearPattern => "HashMap::clear",
        UnificationPattern::DictKeysPattern => "HashMap::keys",
        UnificationPattern::Custom => "",
    }
}

/// How diagnostics show the front-end side of a pattern.
pub fn shown_front_str(p: UnificationPattern) -> (r: &'static str)
    requires
        p != UnificationPattern::Custom,
    ensures
        r@ == shown_front(p),
{
    match p {
        UnificationPattern::LenPattern => "len()",
        UnificationPattern::AppendPattern => "append()",
        UnificationPattern::DictGetPattern => "get()",
        UnificationPattern::ReversePattern => "reverse()",
        UnificationPattern::ClearPattern => "clear()",
        UnificationPattern::PopPattern => "pop()",
        UnificationPattern::InsertPattern => "insert()",
        UnificationPattern::ExtendPattern => "extend()",
        UnificationPattern::DictPopPattern => "dict_pop()",
        UnificationPattern::DictClearPattern => "dict_clear()",
        UnificationPattern::DictKeysPattern => "keys()",
        UnificationPattern::Custom => "",
    }
}

/// How diagnostics show the native side of a pattern.
pub fn shown_native_str(p: UnificationPattern) -> (r: &'static str)
    requires
        p != UnificationPattern::Custom,
    ensures
        r@ == shown_native(p),
{
    match p {
        UnificationPattern::LenPattern => "list_length()",
        UnificationPattern::AppendPattern => "PyList_Append()",
        UnificationPattern::DictGetPattern => "PyDict_GetItem()",
        UnificationPattern::ReversePattern => "list_reverse()",
        UnificationPattern::ClearPattern => "list_clear()",
        UnificationPattern::PopPattern => "list_pop()",
        UnificationPattern::InsertPattern => "list_insert()",
        UnificationPattern::ExtendPattern => "list_extend()",
        UnificationPattern::DictPopPattern => "PyDict_DelItem()",
        UnificationPattern::DictClearPattern => "PyDict_Clear()",
        UnificationPattern::DictKeysPattern => "PyDict_Keys()",
        UnificationPattern::Custom => "",
    }
}

/// How diagnostics show what a pattern becomes.
pub fn shown_target_str(p: UnificationPattern) -> (r: &'static str)
    requires
        p != UnificationPattern::Custom,
    ensures
        r@ == shown_target(p),
{
    match p {
        UnificationPattern::LenPattern => "Vec::len()",
        UnificationPattern::AppendPattern => "Vec::push()",
        UnificationPattern::DictGetPattern => "HashMap::get()",
        UnificationPattern::ReversePattern => "Vec::reverse()",
        UnificationPattern::ClearPattern => "Vec::clear()",
        UnificationPattern::PopPattern => "Vec::pop()",
        UnificationPattern::InsertPattern => "Vec::insert()",
        UnificationPattern::ExtendPattern => "Vec::extend()",
        UnificationPattern::DictPopPattern => "HashMap::remove()",
        UnificationPattern::DictClearPattern => "HashMap::clear()",
        UnificationPattern::DictKeysPattern => "HashMap::keys()",
        UnificationPattern::Custom => "",
    }
}


/// The pattern at position `i` of the catalog.
pub fn catalog_at(i: usize) -> (r: UnificationPattern)
    requires
        i < catalog().len(),
    ensures
        r == catalog()[i as int],
        pattern_index(r) == i,
        in_catalog(r),
{
    if i == 0 {
        UnificationPattern::LenPattern
    } else if i == 1 {
        UnificationPattern::AppendPattern
    } else if i == 2 {
        UnificationPattern::DictGetPattern
    } else if i == 3 {
        UnificationPattern::ReversePattern
    } else if i == 4 {
        UnificationPattern::ClearPattern
    } else if i == 5 {
        UnificationPattern::PopPattern
    } else if i == 6 {
        UnificationPattern::InsertPattern
    } else if i == 7 {
        UnificationPattern::ExtendPattern
    } else if i == 8 {
        UnificationPattern::DictPopPattern
    } else if i == 9 {
        UnificationPattern::DictClearPattern
    } else {
        UnificationPattern::DictKeysPattern
    }
}

/// A pattern of the catalog (every pattern but the extension point).
pub open spec fn in_catalog(p: UnificationPattern) -> bool {
    p != UnificationPattern::Custom
}

/// The catalog pattern recognised for a front-end callee `f` and a native
/// function `n`: exact, case-sensitive equality on both names.
pub open spec fn lookup(f: Seq<char>, n: Seq<char>) -> Option<UnificationPattern> {
    if exists|p: UnificationPattern|
        in_catalog(p) && #[trigger] front_callee(p) == f && native_callee(p) == n {
        Some(
            choose|p: UnificationPattern|
                in_catalog(p) && #[trigger] front_callee(p) == f && native_callee(p) == n,
        )
    } else {
        None
    }
}

/// Distinct catalog patterns have distinct front-end names.
pub proof fn lemma_front_callee_injective(p: UnificationPattern, q: UnificationPattern)
    requires
        in_catalog(p),
        in_catalog(q),
        front_callee(p) == front_callee(q),
    ensures
        p == q,
{
    reveal_strlit("len");
    reveal_strlit("append");
    reveal_strlit("get");
    reveal_strlit("reverse");
    reveal_strlit("clear");
    reveal_strlit("pop");
    reveal_strlit("insert");
    reveal_strlit("extend");
    reveal_strlit("dict_pop");
    reveal_strlit("dict_clear");
    reveal_strlit("keys");
    match p {
        UnificationPattern::LenPattern => {
            assert(front_callee(p) =~= seq!['l', 'e', 'n']);
        },
        UnificationPattern::AppendPattern => {
            assert(front_callee(p) =~= seq!['a', 'p', 'p', 'e', 'n', 'd']);
        },
        UnificationPattern::DictGetPattern => {
            assert(front_callee(p) =~= seq!['g', 'e', 't']);
        },
        UnificationPattern::ReversePattern => {
            assert(front_callee(p) =~= seq!['r', 'e', 'v', 'e', 'r', 's', 'e']);
        },
        UnificationPattern::ClearPattern => {
            assert(front_callee(p) =~= seq!['c', 'l', 'e', 'a', 'r']);
        },
        UnificationPattern::PopPattern => {
            assert(front_callee(p) =~= seq!['p', 'o', 'p']);
        },
        UnificationPattern::InsertPattern => {
            assert(front_callee(p) =~= seq!['i', 'n', 's', 'e', 'r', 't']);
        },
        UnificationPattern::ExtendPattern => {
            assert(front_callee(p) =~= seq!['e', 'x', 't', 'e', 'n', 'd']);
        },
        UnificationPattern::DictPopPattern => {
            assert(front_callee(p) =~= seq!['d', 'i', 'c', 't', '_', 'p', 'o', 'p']);
        },
        UnificationPattern::DictClearPattern => {
            assert(front_callee(p) =~= seq!['d', 'i', 'c', 't', '_', 'c', 'l', 'e', 'a', 'r']);
        },
        UnificationPattern::DictKeysPattern => {
            assert(front_callee(p) =~= seq!['k', 'e', 'y', 's']);
        },
        UnificationPattern::Custom => {},
    }
    match q {
        UnificationPattern::LenPattern => {
            assert(front_callee(q) =~= seq!['l', 'e', 'n']);
        },
        UnificationPattern::AppendPattern => {
            assert(front_callee(q) =~= seq!['a', 'p', 'p', 'e', 'n', 'd']);
        },
        UnificationPattern::DictGetPattern => {
            assert(front_callee(q) =~= seq!['g', 'e', 't']);
        },
        UnificationPattern::ReversePattern => {
            assert(front_callee(q) =~= seq!['r', 'e', 'v', 'e', 'r', 's', 'e']);
        },
        UnificationPattern::ClearPattern => {
            assert(front_callee(q) =~= seq!['c', 'l', 'e', 'a', 'r']);
        },
        UnificationPattern::PopPattern => {
            assert(front_callee(q) =~= seq!['p', 'o', 'p']);
        },
        UnificationPattern::InsertPattern => {
            assert(front_callee(q) =~= seq!['i', 'n', 's', 'e', 'r', 't']);
        },
        UnificationPattern::ExtendPattern => {
            assert(front_callee(q) =~= seq!['e', 'x', 't', 'e', 'n', 'd']);
        },
        UnificationPattern::DictPopPattern => {
            assert(front_callee(q) =~= seq!['d', 'i', 'c', 't', '_', 'p', 'o', 'p']);
        },
        UnificationPattern::DictClearPattern => {
            assert(front_callee(q) =~= seq!['d', 'i', 'c', 't', '_', 'c', 'l', 'e', 'a', 'r']);
        },
        UnificationPattern::DictKeysPattern => {
            assert(front_callee(q) =~= seq!['k', 'e', 'y', 's']);
        },
        UnificationPattern::Custom => {},
    }
}

/// The catalog sequence holds every catalog pattern.
pub proof fn lemma_catalog_complete(p: UnificationPattern)
    requires
        in_catalog(p),
    ensures
        catalog().contains(p),
{
    let c = catalog();
    let i: int = match p {
        UnificationPattern::LenPattern => 0,
        UnificationPattern::AppendPattern => 1,
        UnificationPattern::DictGetPattern => 2,
        UnificationPattern::ReversePattern => 3,
        UnificationPattern::ClearPattern => 4,
        UnificationPattern::PopPattern => 5,
        UnificationPattern::InsertPattern => 6,
        UnificationPattern::ExtendPattern => 7,
        UnificationPattern::DictPopPattern => 8,
        UnificationPattern::DictClearPattern => 9,
        UnificationPattern::DictKeysPattern => 10,
        UnificationPattern::Custom => 0,
    };
    assert(c[i] == p);
}

/// What `lookup` finds is a catalog pattern with the names asked for.
pub proof fn lemma_lookup_found(f: Seq<char>, n: Seq<char>)
    ensures
        lookup(f, n) matches Some(p) ==> in_catalog(p) && front_callee(p) == f && native_callee(p)
            == n,
{
}

/// Looks a name pair up in the catalog.
pub fn lookup_pattern(f: &str, n: &str) -> (r: Option<UnificationPattern>)
    ensures
        r == lookup(f@, n@),
{
    let mut i: usize = 0;
    while i < 11
        invariant
            i <= 11,
            catalog().len() == 11,
            forall|j: int|
                0 <= j < i ==> !(front_callee(#[trigger] catalog()[j]) == f@ && native_callee(
                    catalog()[j],
                ) == n@),
        decreases 11 - i,
    {
        let p = catalog_at(i);
        if crate::text::str_eq(f, front_callee_name(p)) && crate::text::str_eq(
            n,
            native_callee_name(p),
        ) {
            proof {
                let q = choose|q: UnificationPattern|
                    in_catalog(q) && #[trigger] front_callee(q) == f@ && native_callee(q) == n@;
                lemma_front_callee_injective(p, q);
            }
            return Some(p);
        }
        i += 1;
    }
    proof {
        if exists|q: UnificationPattern|
            in_catalog(q) && #[trigger] front_callee(q) == f@ && native_callee(q) == n@ {
            let q = choose|q: UnificationPattern|
                in_catalog(q) && #[trigger] front_callee(q) == f@ && native_callee(q) == n@;
            lemma_catalog_complete(q);
            let j = choose|j: int| 0 <= j < catalog().len() && catalog()[j] == q;
            assert(!(front_callee(catalog()[j]) == f@ && native_callee(catalog()[j]) == n@));
        }
    }
    None
}

/// Every catalog pattern is recognised from its own two names.
pub proof fn lemma_catalog_entries_recognised(p: UnificationPattern)
    requires
        in_catalog(p),
    ensures
        lookup(front_callee(p), native_callee(p)) == Some(p),
{
    let q = choose|q: UnificationPattern|
        in_catalog(q) && #[trigger] front_callee(q) == front_callee(p) && native_callee(q)
            == native_callee(p);
    lemma_front_callee_injective(p, q);
}

/// A catalog entry as diagnostics show it.
#[derive(Debug, Clone, Copy, PartialEq, Eq)]
pub struct PatternSuggestion {
    /// The archetype.
    pub pattern: UnificationPattern,
    /// The front-end side, as shown.
    pub python_fn: &'static str,
    /// The native side, as shown.
    pub c_fn: &'static str,
    /// What it becomes, as shown.
    pub rust_output: &'static str,
}

/// `s` is the catalog entry of its pattern, as diagnostics show it.
pub open spec fn shows_entry(s: PatternSuggestion) -> bool {
    &&& in_catalog(s.pattern)
    &&& s.python_fn@ == shown_front(s.pattern)
    &&& s.c_fn@ == shown_native(s.pattern)
    &&& s.rust_output@ == shown_target(s.pattern)
}

impl PatternSuggestion {
    /// A suggestion from its parts.
    pub fn new(
        pattern: UnificationPattern,
        python_fn: &'static str,
        c_fn: &'static str,
        rust_output: &'static str,
    ) -> (r: Self)
        ensures
            r == (PatternSuggestion { pattern, python_fn, c_fn, rust_output }),
    {
        PatternSuggestion { pattern, python_fn, c_fn, rust_output }
    }
}

/// The catalog entry of a pattern, as diagnostics show it.
fn entry_of(p: UnificationPattern) -> (r: PatternSuggestion)
    requires
        in_catalog(p),
    ensures
        r.pattern == p,
        shows_entry(r),
{
    PatternSuggestion::new(p, shown_front_str(p), shown_native_str(p), shown_target_str(p))
}

/// Every catalog entry, in the catalog's stable order.
pub fn all_patterns() -> (r: Vec<PatternSuggestion>)
    ensures
        r@.len() == catalog().len(),
        forall|i: int|
            0 <= i < r@.len() ==> (#[trigger] r@[i]).pattern == catalog()[i] && shows_entry(r@[i]),
{
    let mut r: Vec<PatternSuggestion> = Vec::new();
    let mut i: usize = 0;
    while i < 11
        invariant
            i <= 11,
            catalog().len() == 11,
            r@.len() == i,
            forall|j: int|
                0 <= j < i ==> (#[trigger] r@[j]).pattern == catalog()[j] && shows_entry(r@[j]),
        decreases 11 - i,
    {
        let p = catalog_at(i);
        r.push(entry_of(p));
        i += 1;
    }
    r
}

/// The shown front-end side of `p` and the name `f` overlap: one holds the
/// other.
pub open spec fn front_related(p: UnificationPattern, f: Seq<char>) -> bool {
    occurs_in(f, shown_front(p)) || occurs_in(shown_front(p), f)
}

/// The shown native side of `p` and the name `n` overlap: one holds the other.
pub open spec fn native_related(p: UnificationPattern, n: Seq<char>) -> bool {
    occurs_in(n, shown_native(p)) || occurs_in(shown_native(p), n)
}

/// `p` is textually related to the pair of names.
#[verifier::opaque]
pub open spec fn related(p: UnificationPattern, f: Seq<char>, n: Seq<char>) -> bool {
    front_related(p, f) || native_related(p, n)
}

/// Some catalog pattern is related to the pair of names.
pub open spec fn any_related(f: Seq<char>, n: Seq<char>) -> bool {
    exists|p: UnificationPattern| in_catalog(p) && #[trigger] related(p, f, n)
}

/// `p` is suggested for the pair of names: the related catalog patterns, or,
/// when none is related, the first three of the catalog.
#[verifier::opaque]
pub open spec fn suggested(p: UnificationPattern, f: Seq<char>, n: Seq<char>) -> bool {
    in_catalog(p) && if any_related(f, n) {
        related(p, f, n)
    } else {
        pattern_index(p) < 3
    }
}

/// `s` holds exactly the entries suggested for the names, each once, ordered
/// by their shown front-end side.
pub open spec fn is_suggestion_list(s: Seq<PatternSuggestion>, f: Seq<char>, n: Seq<char>) -> bool {
    &&& forall|i: int| 0 <= i < s.len() ==> shows_entry(#[trigger] s[i]) && suggested(s[i].pattern, f, n)
    &&& forall|p: UnificationPattern|
        #[trigger] suggested(p, f, n) ==> exists|i: int| 0 <= i < s.len() && s[i].pattern == p
    &&& forall|i: int, j: int| 0 <= i < j < s.len() ==> s[i].pattern != s[j].pattern
    &&& forall|i: int, j: int|
        0 <= i < j < s.len() ==> lex_le(#[trigger] s[i].python_fn@, #[trigger] s[j].python_fn@)
}

/// Whether the entry is textually related to the pair of names.
fn is_related(s: &PatternSuggestion, f: &str, n: &str) -> (r: bool)
    requires
        shows_entry(*s),
    ensures
        r == related(s.pattern, f@, n@),
{
    proof {
        reveal(related);
    }
    contains(s.python_fn, f) || contains(f, s.python_fn) || contains(s.c_fn, n) || contains(
        n,
        s.c_fn,
    )
}

/// Inserting `x` at position `k` keeps every entry and adds `x`.
proof fn lemma_insert_members(s: Seq<PatternSuggestion>, k: int, x: PatternSuggestion)
    requires
        0 <= k <= s.len(),
    ensures
        s.insert(k, x).len() == s.len() + 1,
        forall|y: int| 0 <= y < s.len() ==> s.insert(k, x).contains(#[trigger] s[y]),
        s.insert(k, x).contains(x),
        forall|z: int|
            0 <= z < s.insert(k, x).len() ==> #[trigger] s.insert(k, x)[z] == x || s.contains(
                s.insert(k, x)[z],
            ),
{
    let t = s.insert(k, x);
    s.insert_ensures(k, x);
    assert forall|y: int| 0 <= y < s.len() implies t.contains(#[trigger] s[y]) by {
        if y < k {
            assert(t[y] == s[y]);
        } else {
            assert(t[y + 1] == s[y]);
        }
    }
    assert(t[k] == x);
    assert forall|z: int| 0 <= z < t.len() implies #[trigger] t[z] == x || s.contains(t[z]) by {
        if z < k {
            assert(t[z] == s[z]);
        } else if z > k {
            assert(t[z] == s[z - 1]);
        }
    }
}

/// Inserting an entry whose pattern is new keeps the patterns distinct.
proof fn lemma_insert_distinct(s: Seq<PatternSuggestion>, k: int, x: PatternSuggestion)
    requires
        0 <= k <= s.len(),
        forall|y: int| 0 <= y < s.len() ==> (#[trigger] s[y]).pattern != x.pattern,
        forall|a: int, b: int| 0 <= a < b < s.len() ==> s[a].pattern != s[b].pattern,
    ensures
        forall|a: int, b: int|
            0 <= a < b < s.insert(k, x).len() ==> s.insert(k, x)[a].pattern != s.insert(
                k,
                x,
            )[b].pattern,
{
    let t = s.insert(k, x);
    s.insert_ensures(k, x);
    assert forall|a: int, b: int| 0 <= a < b < t.len() implies t[a].pattern != t[b].pattern by {
        if a < k && b < k {
            assert(t[a] == s[a] && t[b] == s[b]);
        } else if a < k && b == k {
            assert(t[a] == s[a]);
        } else if a < k {
            assert(t[a] == s[a] && t[b] == s[b - 1]);
        } else if a == k {
            assert(t[b] == s[b - 1]);
        } else {
            assert(t[a] == s[a - 1] && t[b] == s[b - 1]);
        }
    }
}

/// Inserting `x` after everything that does not come later keeps the list
/// ordered by shown front-end side.
proof fn lemma_insert_ordered(s: Seq<PatternSuggestion>, k: int, x: PatternSuggestion)
    requires
        0 <= k <= s.len(),
        forall|i: int, j: int|
            0 <= i < j < s.len() ==> lex_le(#[trigger] s[i].python_fn@, #[trigger] s[j].python_fn@),
        forall|y: int| 0 <= y < k ==> lex_le(#[trigger] s[y].python_fn@, x.python_fn@),
        k < s.len() ==> lex_le(x.python_fn@, s[k].python_fn@),
    ensures
        forall|i: int, j: int|
            0 <= i < j < s.insert(k, x).len() ==> lex_le(
                #[trigger] s.insert(k, x)[i].python_fn@,
                #[trigger] s.insert(k, x)[j].python_fn@,
            ),
{
    let t = s.insert(k, x);
    s.insert_ensures(k, x);
    assert forall|i: int, j: int| 0 <= i < j < t.len() implies lex_le(
        #[trigger] t[i].python_fn@,
        #[trigger] t[j].python_fn@,
    ) by {
        if j < k {
            assert(t[i] == s[i] && t[j] == s[j]);
        } else if j == k {
            assert(t[i] == s[i]);
        } else if i == k {
            assert(t[j] == s[j - 1]);
            if j - 1 > k {
                lemma_lex_le_trans(x.python_fn@, s[k].python_fn@, s[j - 1].python_fn@);
            }
        } else if i < k {
            assert(t[i] == s[i] && t[j] == s[j - 1]);
        } else {
            assert(t[i] == s[i - 1] && t[j] == s[j - 1]);
        }
    }
}

/// Inserts `x` into `sorted` after every entry whose shown front-end side
/// does not come later, keeping the list ordered.
fn insert_sorted(sorted: &mut Vec<PatternSuggestion>, x: PatternSuggestion)
    requires
        forall|i: int, j: int|
            0 <= i < j < old(sorted)@.len() ==> lex_le(
                #[trigger] old(sorted)@[i].python_fn@,
                #[trigger] old(sorted)@[j].python_fn@,
            ),
        forall|y: int| 0 <= y < old(sorted)@.len() ==> (#[trigger] old(sorted)@[y]).pattern
            != x.pattern,
        forall|a: int, b: int|
            0 <= a < b < old(sorted)@.len() ==> old(sorted)@[a].pattern != old(sorted)@[b].pattern,
    ensures
        final(sorted)@.len() == old(sorted)@.len() + 1,
        forall|y: int| 0 <= y < old(sorted)@.len() ==> final(sorted)@.contains(#[trigger] old(sorted)@[y]),
        final(sorted)@.contains(x),
        forall|z: int|
            0 <= z < final(sorted)@.len() ==> #[trigger] final(sorted)@[z] == x || old(sorted)@.contains(
                final(sorted)@[z],
            ),
        forall|a: int, b: int|
            0 <= a < b < final(sorted)@.len() ==> final(sorted)@[a].pattern != final(sorted)@[b].pattern,
        forall|i: int, j: int|
            0 <= i < j < final(sorted)@.len() ==> lex_le(
                #[trigger] final(sorted)@[i].python_fn@,
                #[trigger] final(sorted)@[j].python_fn@,
            ),
{
    let mut k: usize = 0;
    while k < sorted.len() && lex_le_str(sorted[k].python_fn, x.python_fn)
        invariant
            sorted@ == old(sorted)@,
            k <= sorted@.len(),
            forall|y: int| 0 <= y < k ==> lex_le(#[trigger] sorted@[y].python_fn@, x.python_fn@),
        decreases sorted@.len() - k,
    {
        k += 1;
    }
    let ghost s = sorted@;
    proof {
        if k < s.len() {
            lemma_lex_le_total(s[k as int].python_fn@, x.python_fn@);
        }
        lemma_insert_members(s, k as int, x);
        lemma_insert_distinct(s, k as int, x);
        lemma_insert_ordered(s, k as int, x);
    }
    sorted.insert(k, x);
}

/// The suggested entries, each once, in catalog order.
fn suggested_entries(f: &str, n: &str) -> (cand: Vec<PatternSuggestion>)
    ensures
        forall|x: int|
            0 <= x < cand@.len() ==> shows_entry(#[trigger] cand@[x]) && suggested(
                cand@[x].pattern,
                f@,
                n@,
            ),
        forall|p: UnificationPattern|
            #[trigger] suggested(p, f@, n@) ==> exists|x: int|
                0 <= x < cand@.len() && cand@[x].pattern == p,
        forall|x: int, y: int| 0 <= x < y < cand@.len() ==> cand@[x].pattern != cand@[y].pattern,
{
    let mut cand: Vec<PatternSuggestion> = Vec::new();
    let mut i: usize = 0;
    while i < 11
        invariant
            i <= 11,
            forall|x: int|
                0 <= x < cand@.len() ==> shows_entry(#[trigger] cand@[x]) && related(
                    cand@[x].pattern,
                    f@,
                    n@,
                ) && pattern_index(cand@[x].pattern) < i,
            forall|p: UnificationPattern|
                in_catalog(p) && pattern_index(p) < i && #[trigger] related(p, f@, n@) ==> exists|
                    x: int,
                | 0 <= x < cand@.len() && cand@[x].pattern == p,
            forall|x: int, y: int| 0 <= x < y < cand@.len() ==> cand@[x].pattern != cand@[y].pattern,
        decreases 11 - i,
    {
        let s = entry_of(catalog_at(i));
        if is_related(&s, f, n) {
            let ghost before = cand@;
            cand.push(s);
            proof {
                assert forall|p: UnificationPattern|
                    in_catalog(p) && pattern_index(p) < i + 1 && #[trigger] related(
                        p,
                        f@,
                        n@,
                    ) implies exists|x: int| 0 <= x < cand@.len() && cand@[x].pattern == p by {
                    if pattern_index(p) == i {
                        assert(cand@[cand@.len() - 1].pattern == p);
                    } else {
                        let x = choose|x: int| 0 <= x < before.len() && before[x].pattern == p;
                        assert(cand@[x] == before[x]);
                    }
                }
            }
        }
        i += 1;
    }
    let ghost any = exists|p: UnificationPattern| in_catalog(p) && #[trigger] related(p, f@, n@);
    proof {
        reveal(suggested);
        assert(any == any_related(f@, n@));
    }
    if cand.len() == 0 {
        proof {
            assert(!any);
        }
        cand.push(entry_of(UnificationPattern::LenPattern));
        cand.push(entry_of(UnificationPattern::AppendPattern));
        cand.push(entry_of(UnificationPattern::DictGetPattern));
        proof {
            assert forall|p: UnificationPattern| #[trigger] suggested(p, f@, n@) implies exists|x: int|
                0 <= x < cand@.len() && cand@[x].pattern == p by {
                if pattern_index(p) == 0 {
                    assert(cand@[0].pattern == p);
                } else if pattern_index(p) == 1 {
                    assert(cand@[1].pattern == p);
                } else {
                    assert(cand@[2].pattern == p);
                }
            }
        }
    } else {
        proof {
            assert(related(cand@[0].pattern, f@, n@));
            assert(any);
        }
    }
    cand
}

/// The entries ordered by their shown front-end side.
fn sort_by_front(cand: Vec<PatternSuggestion>) -> (r: Vec<PatternSuggestion>)
    requires
        forall|x: int, y: int| 0 <= x < y < cand@.len() ==> cand@[x].pattern != cand@[y].pattern,
    ensures
        forall|y: int| 0 <= y < r@.len() ==> cand@.contains(#[trigger] r@[y]),
        forall|x: int| 0 <= x < cand@.len() ==> r@.contains(#[trigger] cand@[x]),
        forall|x: int, y: int| 0 <= x < y < r@.len() ==> r@[x].pattern != r@[y].pattern,
        forall|x: int, y: int|
            0 <= x < y < r@.len() ==> lex_le(#[trigger] r@[x].python_fn@, #[trigger] r@[y].python_fn@),
{
    let mut sorted: Vec<PatternSuggestion> = Vec::new();
    let mut i: usize = 0;
    while i < cand.len()
        invariant
            i <= cand@.len(),
            forall|x: int, y: int| 0 <= x < y < cand@.len() ==> cand@[x].pattern != cand@[y].pattern,
            forall|y: int| 0 <= y < sorted@.len() ==> cand@.subrange(0, i as int).contains(#[trigger] sorted@[y]),
            forall|x: int| 0 <= x < i ==> sorted@.contains(#[trigger] cand@[x]),
            forall|x: int, y: int|
                0 <= x < y < sorted@.len() ==> sorted@[x].pattern != sorted@[y].pattern,
            forall|x: int, y: int|
                0 <= x < y < sorted@.len() ==> lex_le(
                    #[trigger] sorted@[x].python_fn@,
                    #[trigger] sorted@[y].python_fn@,
                ),
        decreases cand@.len() - i,
    {
        let ghost s = sorted@;
        let x = cand[i];
        proof {
            assert forall|y: int| 0 <= y < s.len() implies (#[trigger] s[y]).pattern != x.pattern by {
                assert(cand@.subrange(0, i as int).contains(s[y]));
                let z = choose|z: int| 0 <= z < i && cand@.subrange(0, i as int)[z] == s[y];
                assert(cand@[z] == s[y]);
            }
        }
        insert_sorted(&mut sorted, x);
        proof {
            let u = sorted@;
            let c1 = cand@.subrange(0, i + 1);
            assert forall|y: int| 0 <= y < u.len() implies c1.contains(#[trigger] u[y]) by {
                if u[y] == x {
                    assert(c1[i as int] == x);
                } else {
                    let w = choose|w: int| 0 <= w < s.len() && s[w] == u[y];
                    assert(cand@.subrange(0, i as int).contains(s[w]));
                    let z = choose|z: int| 0 <= z < i && cand@.subrange(0, i as int)[z] == s[w];
                    assert(c1[z] == u[y]);
                }
            }
            assert forall|z: int| 0 <= z < i + 1 implies u.contains(#[trigger] cand@[z]) by {
                if z < i {
                    assert(s.contains(cand@[z]));
                    let w = choose|w: int| 0 <= w < s.len() && s[w] == cand@[z];
                    assert(u.contains(s[w]));
                }
            }
        }
        i += 1;
    }
    assert(cand@.subrange(0, i as int) =~= cand@);
    sorted
}

/// The catalog entries related to a front-end name and a native name, for an
/// error message: those whose shown front-end side holds `python_fn` or is
/// held by it, and those whose shown native side holds `c_fn` or is held by
/// it; when there are none, the first three entries of the catalog. Each
/// entry comes once, ordered by its shown front-end side.
pub fn find_similar_patterns(python_fn: &str, c_fn: &str) -> (r: Vec<PatternSuggestion>)
    ensures
        is_suggestion_list(r@, python_fn@, c_fn@),
{
    let f = python_fn;
    let n = c_fn;
    let cand = suggested_entries(f, n);
    let ghost c = cand@;
    let sorted = sort_by_front(cand);
    proof {
        assert forall|y: int| 0 <= y < sorted@.len() implies shows_entry(#[trigger] sorted@[y])
            && suggested(sorted@[y].pattern, f@, n@) by {
            assert(c.contains(sorted@[y]));
        }
        assert forall|p: UnificationPattern| #[trigger] suggested(p, f@, n@) implies exists|y: int|
            0 <= y < sorted@.len() && sorted@[y].pattern == p by {
            let x = choose|x: int| 0 <= x < c.len() && c[x].pattern == p;
            assert(sorted@.contains(c[x]));
        }
    }
    sorted
}

} // verus!
