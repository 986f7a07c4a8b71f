//! A plain tree of JSON values, and the tolerant extraction of upload
//! locations from a response: an ordered list of strategies applied in
//! priority order until one succeeds.
//!
//! A number's magnitude plays no part in any extraction strategy, so
//! numbers are carried without it.

use vstd::prelude::*;
use vstd::string::StringExecFns;
use vstd::string::StrSliceExecFns;

verus! {

/// One JSON value, as plain data.
pub enum JsonValue {
    /// The null value.
    Null,
    /// A boolean.
    Bool(bool),
    /// A number; its magnitude is never read here.
    Number,
    /// A string.
    Text(String),
    /// An array of values, in order.
    Array(Vec<JsonValue>),
    /// An object: its fields in order, each a name with a value.
    Object(Vec<(String, JsonValue)>),
}

/// The value of the first field with the given name, if any.
pub open spec fn lookup_field(
    fields: Seq<(String, JsonValue)>,
    name: Seq<char>,
) -> Option<JsonValue>
    decreases fields.len(),
{
    if fields.len() == 0 {
        None
    } else if fields[0].0@ == name {
        Some(fields[0].1)
    } else {
        lookup_field(fields.drop_first(), name)
    }
}

/// The named field of an object; nothing on any other kind of value.
pub open spec fn get_field(j: JsonValue, name: Seq<char>) -> Option<JsonValue> {
    match j {
        JsonValue::Object(fields) => lookup_field(fields@, name),
        _ => None,
    }
}

/// The named field, when it holds a string.
pub open spec fn get_text(j: JsonValue, name: Seq<char>) -> Option<Seq<char>> {
    match get_field(j, name) {
        Some(JsonValue::Text(s)) => Some(s@),
        _ => None,
    }
}

/// The named field, when it holds a boolean.
pub open spec fn get_bool(j: JsonValue, name: Seq<char>) -> Option<bool> {
    match get_field(j, name) {
        Some(JsonValue::Bool(b)) => Some(b),
        _ => None,
    }
}

/// Skipping fields whose names all differ from the one sought leaves
/// the lookup unchanged.
proof fn lemma_lookup_skip(fields: Seq<(String, JsonValue)>, name: Seq<char>, i: int)
    requires
        0 <= i <= fields.len(),
        forall|k: int| 0 <= k < i ==> (#[trigger] fields[k]).0@ != name,
    ensures
        lookup_field(fields, name) == lookup_field(
            fields.subrange(i, fields.len() as int),
            name,
        ),
    decreases i,
{
    if i == 0 {
        assert(fields.subrange(0, fields.len() as int) =~= fields);
    } else {
        lemma_lookup_skip(fields, name, i - 1);
        let s = fields.subrange(i - 1, fields.len() as int);
        assert(s[0] == fields[i - 1]);
        assert(s.drop_first() =~= fields.subrange(i, fields.len() as int));
    }
}

impl JsonValue {
    /// Looks a field up by name on an object; the first field with
    /// that name wins.  Nothing on any other kind of value.
    pub fn field<'a>(&'a self, name: &str) -> (r: Option<&'a JsonValue>)
        ensures
            match r {
                Some(v) => get_field(*self, name@) == Some(*v),
                None => get_field(*self, name@) is None,
            },
    {
        match self {
            JsonValue::Object(fields) => {
                let name_string = String::from_str(name);
                let mut i: usize = 0;
                #[verifier::loop_isolation(false)]
                while i < fields.len()
                    invariant
                        i <= fields@.len(),
                        forall|k: int| 0 <= k < i ==> (#[trigger] fields@[k]).0@ != name@,
                    decreases fields@.len() - i,
                {
                    if fields[i].0 == name_string {
                        proof {
                            lemma_lookup_skip(fields@, name@, i as int);
                            let sub = fields@.subrange(i as int, fields@.len() as int);
                            assert(sub[0] == fields@[i as int]);
                            assert(fields@[i as int].0@ == name@);
                            assert(lookup_field(sub, name@) == Some(sub[0].1));
                        }
                        return Some(&fields[i].1);
                    }
                    i += 1;
                }
                proof {
                    lemma_lookup_skip(fields@, name@, fields@.len() as int);
                }
                None
            },
            _ => None,
        }
    }

    /// The named field, when it holds a string, copied out.
    pub fn text_field(&self, name: &str) -> (r: Option<String>)
        ensures
            match r {
                Some(s) => get_text(*self, name@) == Some(s@),
                None => get_text(*self, name@) is None,
            },
    {
        match self.field(name) {
            Some(v) => match v {
                JsonValue::Text(s) => Some(s.clone()),
                _ => None,
            },
            None => None,
        }
    }

    /// The named field, when it holds a boolean.
    pub fn bool_field(&self, name: &str) -> (r: Option<bool>)
        ensures
            match r {
                Some(b) => get_bool(*self, name@) == Some(b),
                None => get_bool(*self, name@) is None,
            },
    {
        match self.field(name) {
            Some(v) => match v {
                JsonValue::Bool(b) => Some(*b),
                _ => None,
            },
            None => None,
        }
    }
}


/// ASCII case folding of one character: the letters A through Z fold
/// to their lower-case forms; every other character is unchanged.
pub open spec fn ascii_lower(c: char) -> char {
    if 65 <= c as u32 && c as u32 <= 90 {
        ((c as u32) + 32) as char
    } else {
        c
    }
}

/// A character sequence folded to lower case, ASCII-wise.
pub open spec fn ascii_lower_seq(s: Seq<char>) -> Seq<char> {
    s.map_values(|c: char| ascii_lower(c))
}

/// The four letters of "ipfs".
pub open spec fn ipfs_needle() -> Seq<char> {
    seq!['i', 'p', 'f', 's']
}

/// The four letters of "http".
pub open spec fn http_needle() -> Seq<char> {
    seq!['h', 't', 't', 'p']
}

/// Whether `sub` occurs in `s` starting at position `i`.
pub open spec fn has_substring_at(s: Seq<char>, sub: Seq<char>, i: int) -> bool {
    0 <= i && i + sub.len() <= s.len() && s.subrange(i, i + sub.len()) == sub
}

/// Whether `sub` occurs anywhere in `s`.
pub open spec fn has_substring(s: Seq<char>, sub: Seq<char>) -> bool {
    exists|i: int| has_substring_at(s, sub, i)
}

/// Whether a string looks like a stored-content location: folded to
/// lower case it contains "ipfs", or it begins with "http".
pub open spec fn looks_like_location(s: Seq<char>) -> bool {
    ||| has_substring(ascii_lower_seq(s), ipfs_needle())
    ||| s.len() >= 4 && ascii_lower_seq(s).take(4) == http_needle()
}

/// Whether the character folds to the given lower-case letter.
pub(crate) fn folds_to(c: char, lower: char, upper: char) -> (r: bool)
    requires
        lower as u32 == upper as u32 + 32,
        65 <= upper as u32 <= 90,
    ensures
        r == (ascii_lower(c) == lower),
{
    c == lower || c == upper
}

/// The characters of a string, in order.
pub(crate) fn chars_of(s: &str) -> (r: Vec<char>)
    ensures
        r@ == s@,
{
    let n = s.unicode_len();
    let mut r: Vec<char> = Vec::new();
    let mut i: usize = 0;
    #[verifier::loop_isolation(false)]
    while i < n
        invariant
            i <= n,
            r@ == s@.take(i as int),
        decreases n - i,
    {
        r.push(s.get_char(i));
        i += 1;
        proof {
            assert(r@ =~= s@.take(i as int));
        }
    }
    proof {
        assert(s@.take(n as int) =~= s@);
    }
    r
}

/// Whether the string looks like a stored-content location.
pub fn is_location_like(s: &str) -> (r: bool)
    ensures
        r == looks_like_location(s@),
{
    let cs = chars_of(s);
    let ghost l = ascii_lower_seq(s@);
    let n = cs.len();
    let has_http_prefix = n >= 4 && folds_to(cs[0], 'h', 'H') && folds_to(cs[1], 't', 'T')
        && folds_to(cs[2], 't', 'T') && folds_to(cs[3], 'p', 'P');
    proof {
        if has_http_prefix {
            assert(l.take(4) =~= http_needle());
        } else if n >= 4 && l.take(4) == http_needle() {
            assert(l[0] == ascii_lower(s@[0]) && l[1] == ascii_lower(s@[1]) && l[2]
                == ascii_lower(s@[2]) && l[3] == ascii_lower(s@[3]));
            assert(false);
        }
    }
    if has_http_prefix {
        proof {
            assert(looks_like_location(s@));
        }
        return true;
    }
    let mut i: usize = 0;
    #[verifier::loop_isolation(false)]
    while n - i >= 4
        invariant
            i <= n,
            forall|k: int| 0 <= k < i ==> !has_substring_at(l, ipfs_needle(), k),
        decreases n - i,
    {
        let hit = folds_to(cs[i], 'i', 'I') && folds_to(cs[i + 1], 'p', 'P') && folds_to(
            cs[i + 2],
            'f',
            'F',
        ) && folds_to(cs[i + 3], 's', 'S');
        if hit {
            proof {
                assert(l.subrange(i as int, i as int + 4) =~= ipfs_needle());
                assert(has_substring_at(l, ipfs_needle(), i as int));
            }
            return true;
        }
        proof {
            if has_substring_at(l, ipfs_needle(), i as int) {
                assert(l.subrange(i as int, i as int + 4)[0] == l[i as int]);
                assert(l.subrange(i as int, i as int + 4)[1] == l[i as int + 1]);
                assert(l.subrange(i as int, i as int + 4)[2] == l[i as int + 2]);
                assert(l.subrange(i as int, i as int + 4)[3] == l[i as int + 3]);
                assert(false);
            }
        }
        i += 1;
    }
    proof {
        assert forall|k: int| !has_substring_at(l, ipfs_needle(), k) by {
            if 0 <= k < i {
            } else if k + 4 <= l.len() && k >= 0 {
                assert(k < i);
            }
        }
        assert(!has_substring(l, ipfs_needle()));
        assert(!(n >= 4 && l.take(4) == http_needle()));
    }
    false
}


/// The first location-like string in a value: a depth-first,
/// left-to-right walk, so the scan order is deterministic.
pub open spec fn first_location_in(j: JsonValue) -> Option<Seq<char>>
    decreases j,
{
    match j {
        JsonValue::Text(s) => if looks_like_location(s@) {
            Some(s@)
        } else {
            None
        },
        JsonValue::Array(items) => first_location_in_list(items@),
        JsonValue::Object(fields) => first_location_in_fields(fields@),
        _ => None,
    }
}

/// The first location-like string among the items of an array, in
/// order.
pub open spec fn first_location_in_list(items: Seq<JsonValue>) -> Option<Seq<char>>
    decreases items,
{
    if items.len() == 0 {
        None
    } else {
        match first_location_in(items[0]) {
            Some(s) => Some(s),
            None => first_location_in_list(items.drop_first()),
        }
    }
}

/// The first location-like string among the field values of an
/// object, in order.
pub open spec fn first_location_in_fields(fields: Seq<(String, JsonValue)>) -> Option<Seq<char>>
    decreases fields,
{
    if fields.len() == 0 {
        None
    } else {
        match first_location_in(fields[0].1) {
            Some(s) => Some(s),
            None => first_location_in_fields(fields.drop_first()),
        }
    }
}

/// Skipping items that hold no location leaves the list scan
/// unchanged.
proof fn lemma_list_scan_skip(items: Seq<JsonValue>, i: int)
    requires
        0 <= i <= items.len(),
        forall|k: int| 0 <= k < i ==> first_location_in(#[trigger] items[k]) is None,
    ensures
        first_location_in_list(items) == first_location_in_list(
            items.subrange(i, items.len() as int),
        ),
    decreases i,
{
    if i == 0 {
        assert(items.subrange(0, items.len() as int) =~= items);
    } else {
        lemma_list_scan_skip(items, i - 1);
        let s = items.subrange(i - 1, items.len() as int);
        assert(s[0] == items[i - 1]);
        assert(s.drop_first() =~= items.subrange(i, items.len() as int));
    }
}

/// Skipping fields that hold no location leaves the object scan
/// unchanged.
proof fn lemma_fields_scan_skip(fields: Seq<(String, JsonValue)>, i: int)
    requires
        0 <= i <= fields.len(),
        forall|k: int| 0 <= k < i ==> first_location_in((#[trigger] fields[k]).1) is None,
    ensures
        first_location_in_fields(fields) == first_location_in_fields(
            fields.subrange(i, fields.len() as int),
        ),
    decreases i,
{
    if i == 0 {
        assert(fields.subrange(0, fields.len() as int) =~= fields);
    } else {
        lemma_fields_scan_skip(fields, i - 1);
        let s = fields.subrange(i - 1, fields.len() as int);
        assert(s[0] == fields[i - 1]);
        assert(s.drop_first() =~= fields.subrange(i, fields.len() as int));
    }
}

impl JsonValue {
    /// The first location-like string anywhere in the value, walking
    /// depth first, left to right.
    pub fn first_location(&self) -> (r: Option<String>)
        ensures
            match r {
                Some(s) => first_location_in(*self) == Some(s@),
                None => first_location_in(*self) is None,
            },
        decreases *self,
    {
        match self {
            JsonValue::Text(s) => {
                if is_location_like(s.as_str()) {
                    Some(s.clone())
                } else {
                    None
                }
            },
            JsonValue::Array(items) => {
                let mut i: usize = 0;
                #[verifier::loop_isolation(false)]
                while i < items.len()
                    invariant
                        i <= items@.len(),
                        forall|k: int| 0 <= k < i ==> first_location_in(#[trigger] items@[k]) is None,
                    decreases items@.len() - i,
                {
                    proof {
                        assert(decreases_to!(*self => items@[i as int]));
                    }
                    let found = items[i].first_location();
                    match found {
                        Some(s) => {
                            proof {
                                lemma_list_scan_skip(items@, i as int);
                                let sub = items@.subrange(i as int, items@.len() as int);
                                assert(sub[0] == items@[i as int]);
                            }
                            return Some(s);
                        },
                        None => (),
                    }
                    i += 1;
                }
                proof {
                    lemma_list_scan_skip(items@, items@.len() as int);
                }
                None
            },
            JsonValue::Object(fields) => {
                let mut i: usize = 0;
                #[verifier::loop_isolation(false)]
                while i < fields.len()
                    invariant
                        i <= fields@.len(),
                        forall|k: int|
                            0 <= k < i ==> first_location_in((#[trigger] fields@[k]).1) is None,
                    decreases fields@.len() - i,
                {
                    proof {
                        assert(decreases_to!(*self => fields@[i as int].1));
                    }
                    let found = fields[i].1.first_location();
                    match found {
                        Some(s) => {
                            proof {
                                lemma_fields_scan_skip(fields@, i as int);
                                let sub = fields@.subrange(i as int, fields@.len() as int);
                                assert(sub[0] == fields@[i as int]);
                            }
                            return Some(s);
                        },
                        None => (),
                    }
                    i += 1;
                }
                proof {
                    lemma_fields_scan_skip(fields@, fields@.len() as int);
                }
                None
            },
            _ => None,
        }
    }
}

} // verus!
