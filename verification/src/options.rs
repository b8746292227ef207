//! Extraction of a named option's value from a flat argument list.
//!
//! The value of `key` may be spelled in four equivalent ways across one,
//! two or three consecutive arguments: `key=value`, `key=` `value`,
//! `key` `=value`, and `key` `=` `value`. Scanning runs left to right and
//! stops at the first occurrence that resolves; an occurrence of `key`
//! that resolves under none of the four forms is passed over rather than
//! failing the whole search.

use vstd::prelude::*;

verus! {

/// `arg` is `key` immediately followed by `=` (and possibly more text).
pub open spec fn spec_key_eq_prefix(arg: Seq<char>, key: Seq<char>) -> bool {
    &&& arg.len() > key.len()
    &&& arg.subrange(0, key.len() as int) == key
    &&& arg[key.len() as int] == '='
}

/// The text of `arg` after the `=` that follows `key`.
pub open spec fn spec_value_after_key(arg: Seq<char>, key: Seq<char>) -> Seq<char> {
    arg.subrange(key.len() as int + 1, arg.len() as int)
}

/// The value associated with `key` in `args`, under the four accepted
/// spellings, scanning left to right; `None` when the list is exhausted
/// without a resolving occurrence.
///
/// When an argument is exactly `key` but what follows completes none of
/// the forms, both that argument and its successor are passed over and
/// the scan goes on.
pub open spec fn spec_find_option_value(args: Seq<Seq<char>>, key: Seq<char>) -> Option<Seq<char>>
    decreases args.len(),
{
    if args.len() == 0 {
        None
    } else if spec_key_eq_prefix(args[0], key) {
        if spec_value_after_key(args[0], key).len() > 0 {
            // `key=value`
            Some(spec_value_after_key(args[0], key))
        } else if args.len() >= 2 {
            // `key=` `value`
            Some(args[1])
        } else {
            None
        }
    } else if args[0] == key {
        if args.len() < 2 {
            None
        } else if args[1] == seq!['='] {
            // `key` `=` `value`
            if args.len() >= 3 {
                Some(args[2])
            } else {
                None
            }
        } else if args[1].len() > 0 && args[1][0] == '=' {
            // `key` `=value`
            Some(args[1].subrange(1, args[1].len() as int))
        } else {
            spec_find_option_value(args.skip(2), key)
        }
    } else {
        spec_find_option_value(args.skip(1), key)
    }
}

/// Some argument of `args` is exactly `key`.
pub open spec fn spec_contains_arg(args: Seq<Seq<char>>, key: Seq<char>) -> bool {
    exists|i: int| 0 <= i < args.len() && args[i] == key
}

/// Character-by-character string equality.
pub(crate) fn str_eq(a: &str, b: &str) -> (r: bool)
    ensures
        r == (a@ == b@),
{
    let alen = a.unicode_len();
    let blen = b.unicode_len();
    if alen != blen {
        return false;
    }
    let mut i: usize = 0;
    while i < alen
        invariant
            0 <= i <= alen,
            alen == a@.len(),
            alen == b@.len(),
            forall|j: int| 0 <= j < i ==> a@[j] == b@[j],
        decreases alen - i,
    {
        if a.get_char(i) != b.get_char(i) {
            return false;
        }
        i += 1;
    }
    proof {
        assert(a@ =~= b@);
    }
    true
}

/// Whether `arg` is `key` immediately followed by `=`.
fn is_key_eq_prefix(arg: &str, key: &str) -> (r: bool)
    ensures
        r == spec_key_eq_prefix(arg@, key@),
{
    let alen = arg.unicode_len();
    let klen = key.unicode_len();
    if alen <= klen {
        return false;
    }
    if arg.get_char(klen) != '=' {
        return false;
    }
    let mut i: usize = 0;
    while i < klen
        invariant
            0 <= i <= klen,
            klen == key@.len(),
            klen < arg@.len(),
            forall|j: int| 0 <= j < i ==> arg@[j] == key@[j],
        decreases klen - i,
    {
        if arg.get_char(i) != key.get_char(i) {
            proof {
                assert(arg@.subrange(0, klen as int)[i as int] != key@[i as int]);
            }
            return false;
        }
        i += 1;
    }
    proof {
        assert(arg@.subrange(0, klen as int) =~= key@);
    }
    true
}

/// Search `args` for `key=value`, `key= value`, `key =value` or
/// `key = value`, returning the first value found.
pub fn find_option_value(args: &[String], key: &str) -> (r: Option<String>)
    ensures
        r.deep_view() == spec_find_option_value(args.deep_view(), key@),
{
    let ghost all: Seq<Seq<char>> = args.deep_view();
    let mut i: usize = 0;
    proof {
        assert(all.skip(0) =~= all);
    }
    loop
        invariant
            0 <= i <= args.len(),
            all == args.deep_view(),
            all.len() == args.len(),
            spec_find_option_value(all.skip(i as int), key@) == spec_find_option_value(all, key@),
        decreases args.len() - i,
    {
        if i >= args.len() {
            return None;
        }
        let a0: &String = &args[i];
        proof {
            assert(all.skip(i as int)[0] == all[i as int]);
        }
        let a0len = a0.as_str().unicode_len();
        let klen = key.unicode_len();
        if is_key_eq_prefix(a0.as_str(), key) {
            if a0len > klen + 1 {
                // `key=value`
                let v = a0.as_str().substring_char(klen + 1, a0len).to_owned();
                return Some(v);
            } else if i + 1 < args.len() {
                // `key=` `value`
                proof {
                    assert(all.skip(i as int)[1] == all[i + 1]);
                }
                return Some(args[i + 1].clone());
            } else {
                return None;
            }
        } else if str_eq(a0.as_str(), key) {
            if i + 1 >= args.len() {
                return None;
            }
            let a1: &String = &args[i + 1];
            proof {
                assert(all.skip(i as int)[1] == all[i + 1]);
            }
            let a1len = a1.as_str().unicode_len();
            if a1len >= 1 && a1.as_str().get_char(0) == '=' {
                if a1len == 1 {
                    // `key` `=` `value`
                    proof {
                        assert(a1@ =~= seq!['=']);
                    }
                    if i + 2 < args.len() {
                        proof {
                            assert(all.skip(i as int)[2] == all[i + 2]);
                        }
                        return Some(args[i + 2].clone());
                    } else {
                        return None;
                    }
                } else {
                    // `key` `=value`
                    proof {
                        assert(a1@ != seq!['=']);
                    }
                    return Some(a1.as_str().substring_char(1, a1len).to_owned());
                }
            } else {
                proof {
                    assert(a1@ != seq!['=']);
                    assert(all.skip(i as int).skip(2) =~= all.skip(i + 2));
                }
                i += 2;
            }
        } else {
            proof {
                assert(all.skip(i as int).skip(1) =~= all.skip(i + 1));
            }
            i += 1;
        }
    }
}

/// Whether some argument is exactly `key`.
pub fn find_option(args: &[String], key: &str) -> (r: bool)
    ensures
        r == spec_contains_arg(args.deep_view(), key@),
{
    let ghost all: Seq<Seq<char>> = args.deep_view();
    let mut i: usize = 0;
    while i < args.len()
        invariant
            0 <= i <= args.len(),
            all == args.deep_view(),
            all.len() == args.len(),
            forall|j: int| 0 <= j < i ==> all[j] != key@,
        decreases args.len() - i,
    {
        if str_eq(args[i].as_str(), key) {
            proof {
                assert(all[i as int] == args@[i as int]@);
            }
            return true;
        }
        i += 1;
    }
    false
}

/// Each of the four accepted spellings of `key=value` yields `value`.
///
/// The first and third spellings carry the value inside an argument that
/// also holds `=`; with an empty value they collapse into other forms, so
/// the law is stated for non-empty values.
pub proof fn lemma_find_option_value_accepted_forms(key: Seq<char>, value: Seq<char>)
    requires
        value.len() > 0,
    ensures
        spec_find_option_value(seq![key + seq!['='] + value], key) == Some(value),
        spec_find_option_value(seq![key + seq!['='], value], key) == Some(value),
        spec_find_option_value(seq![key, seq!['='] + value], key) == Some(value),
        spec_find_option_value(seq![key, seq!['='], value], key) == Some(value),
{
    let joined = key + seq!['='] + value;
    assert(joined.subrange(0, key.len() as int) =~= key);
    assert(joined[key.len() as int] == '=');
    assert(spec_value_after_key(joined, key) =~= value);

    let trailing = key + seq!['='];
    assert(trailing.subrange(0, key.len() as int) =~= key);
    assert(trailing[key.len() as int] == '=');
    assert(spec_value_after_key(trailing, key) =~= Seq::<char>::empty());

    let eq_value = seq!['='] + value;
    assert(!spec_key_eq_prefix(key, key));
    assert(eq_value != seq!['=']) by {
        assert(eq_value.len() != 1);
    }
    assert(eq_value[0] == '=');
    assert(eq_value.subrange(1, eq_value.len() as int) =~= value);
}

/// An occurrence of `key` that ends the list, or that is followed only by
/// `=`, resolves to nothing: the search reports "not found".
pub proof fn lemma_find_option_value_ending_mid_pattern(key: Seq<char>)
    ensures
        spec_find_option_value(seq![key], key) == None::<Seq<char>>,
        spec_find_option_value(seq![key, seq!['=']], key) == None::<Seq<char>>,
        spec_find_option_value(seq![key + seq!['=']], key) == None::<Seq<char>>,
{
    assert(!spec_key_eq_prefix(key, key));
    let trailing = key + seq!['='];
    assert(trailing.subrange(0, key.len() as int) =~= key);
    assert(trailing[key.len() as int] == '=');
    assert(spec_value_after_key(trailing, key) =~= Seq::<char>::empty());
}

/// An occurrence of `key` whose successor starts with no `=` is passed
/// over together with that successor, and the scan continues on the rest
/// of the list.
pub proof fn lemma_find_option_value_passes_malformed(
    key: Seq<char>,
    w: Seq<char>,
    rest: Seq<Seq<char>>,
)
    requires
        w.len() == 0 || w[0] != '=',
    ensures
        spec_find_option_value(seq![key, w] + rest, key) == spec_find_option_value(rest, key),
{
    let args = seq![key, w] + rest;
    assert(args[0] == key);
    assert(args[1] == w);
    assert(!spec_key_eq_prefix(key, key));
    assert(w != seq!['=']) by {
        if w == seq!['='] {
            assert(w[0] == '=');
        }
    }
    assert(args.skip(2) =~= rest);
}

} // verus!
