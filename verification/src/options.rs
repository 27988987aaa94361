use vstd::prelude::*;
use crate::text::str_eq;

verus! {

/// A loosely-typed value from the broker's option bag.  The broker sends
/// a variant value; this backend only ever reads 32-bit unsigned integers
/// and strings, so every other shape is carried as `Unsupported` and
/// treated as if the key were absent.
#[derive(Debug, Clone)]
pub enum OptionValue {
    U32(u32),
    Str(String),
    Unsupported,
}

/// First-match lookup in an option bag.
pub open spec fn spec_lookup(opts: Seq<(String, OptionValue)>, key: Seq<char>) -> Option<OptionValue>
    decreases opts.len(),
{
    if opts.len() == 0 {
        None
    } else if opts[0].0@ == key {
        Some(opts[0].1)
    } else {
        spec_lookup(opts.drop_first(), key)
    }
}

/// The `u32` stored under `key`, or `None` if the key is absent or its
/// value has another type.
pub open spec fn spec_get_u32(opts: Seq<(String, OptionValue)>, key: Seq<char>) -> Option<u32> {
    match spec_lookup(opts, key) {
        Some(OptionValue::U32(v)) => Some(v),
        _ => None,
    }
}

/// The string stored under `key`, or `None` if the key is absent or its
/// value has another type.
pub open spec fn spec_get_string(opts: Seq<(String, OptionValue)>, key: Seq<char>) -> Option<Seq<char>> {
    match spec_lookup(opts, key) {
        Some(OptionValue::Str(s)) => Some(s@),
        _ => None,
    }
}

/// Extracts a `u32` option; a missing key or a value of another type
/// both read as `None`, so a malformed option falls back to its default
/// at the caller.
pub fn get_u32(options: &Vec<(String, OptionValue)>, key: &str) -> (r: Option<u32>)
    ensures
        r == spec_get_u32(options@, key@),
{
    let n = options.len();
    let mut i: usize = 0;
    proof {
        assert(options@.skip(0) =~= options@);
    }
    while i < n
        invariant
            n == options@.len(),
            i <= n,
            spec_lookup(options@, key@) == spec_lookup(options@.skip(i as int), key@),
        decreases n - i,
    {
        proof {
            assert(options@.skip(i as int)[0] == options@[i as int]);
            assert(options@.skip(i as int).drop_first() =~= options@.skip(i as int + 1));
        }
        if str_eq(options[i].0.as_str(), key) {
            match &options[i].1 {
                OptionValue::U32(v) => {
                    return Some(*v);
                },
                _ => {
                    return None;
                },
            }
        }
        i = i + 1;
    }
    proof {
        assert(options@.skip(n as int).len() == 0);
    }
    None
}

/// Extracts a string option; a missing key or a value of another type
/// both read as `None`.
pub fn get_string(options: &Vec<(String, OptionValue)>, key: &str) -> (r: Option<String>)
    ensures
        match r {
            Some(s) => spec_get_string(options@, key@) == Some(s@),
            None => spec_get_string(options@, key@) is None,
        },
{
    let n = options.len();
    let mut i: usize = 0;
    proof {
        assert(options@.skip(0) =~= options@);
    }
    while i < n
        invariant
            n == options@.len(),
            i <= n,
            spec_lookup(options@, key@) == spec_lookup(options@.skip(i as int), key@),
        decreases n - i,
    {
        proof {
            assert(options@.skip(i as int)[0] == options@[i as int]);
            assert(options@.skip(i as int).drop_first() =~= options@.skip(i as int + 1));
        }
        if str_eq(options[i].0.as_str(), key) {
            match &options[i].1 {
                OptionValue::Str(s) => {
                    return Some(s.clone());
                },
                _ => {
                    return None;
                },
            }
        }
        i = i + 1;
    }
    proof {
        assert(options@.skip(n as int).len() == 0);
    }
    None
}

} // verus!
