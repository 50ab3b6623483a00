//! Reading flags and values out of a command-line argument vector.

use vstd::prelude::*;

verus! {

/// The value that follows the first occurrence of `key` at an even or odd
/// position in `args`, scanning adjacent pairs from the left; `def` when no
/// pair starts with `key`.
pub open spec fn spec_arg_value(key: Seq<char>, args: Seq<Seq<char>>, def: Seq<char>) -> Seq<char>
    decreases args.len(),
{
    if args.len() < 2 {
        def
    } else if args[0] == key {
        args[1]
    } else {
        spec_arg_value(key, args.drop_first(), def)
    }
}

/// True when some element of `args` equals `key`.
pub open spec fn spec_has_flag(key: Seq<char>, args: Seq<Seq<char>>) -> bool {
    exists|i: int| 0 <= i < args.len() && args[i] == key
}

/// Character-by-character string comparison.
pub fn str_eq(a: &str, b: &str) -> (r: bool)
    ensures
        r == (a@ == b@),
{
    let alen = a.unicode_len();
    let blen = b.unicode_len();
    if alen != blen {
        return false;
    }
    let mut i: usize = 0;
    while i < alen
        invariant
            alen == a@.len(),
            blen == b@.len(),
            alen == blen,
            0 <= i <= alen,
            forall|j: int| 0 <= j < i ==> a@[j] == b@[j],
        decreases alen - i,
    {
        if a.get_char(i) != b.get_char(i) {
            return false;
        }
        i += 1;
    }
    proof {
        assert(a@ =~= b@);
    }
    true
}

/// The value following the first occurrence of the flag `key` in `args`,
/// or `def` when the flag is absent or stands last.
pub fn parse_arg(key: &str, args: &Vec<String>, def: &str) -> (r: String)
    ensures
        r@ == spec_arg_value(key@, args.deep_view(), def@),
{
    let n = args.len();
    let mut i: usize = 0;
    proof {
        assert(args.deep_view().skip(0) =~= args.deep_view());
    }
    while n - i >= 2
        invariant
            n == args@.len(),
            0 <= i <= n,
            spec_arg_value(key@, args.deep_view(), def@) == spec_arg_value(
                key@,
                args.deep_view().skip(i as int),
                def@,
            ),
        decreases n - i,
    {
        let hit = str_eq(args[i].as_str(), key);
        proof {
            assert(args.deep_view().skip(i as int)[0] == args@[i as int]@);
        }
        if hit {
            proof {
                assert(args.deep_view().skip(i as int)[1] == args@[i as int + 1]@);
            }
            return args[i + 1].clone();
        }
        proof {
            assert(args.deep_view().skip(i as int).drop_first() =~= args.deep_view().skip(
                i as int + 1,
            ));
        }
        i += 1;
    }
    proof {
        assert(args.deep_view().skip(i as int).len() < 2);
    }
    def.to_owned()
}

/// True when the bare flag `key` occurs anywhere in `args`.
pub fn has_flag(key: &str, args: &Vec<String>) -> (r: bool)
    ensures
        r == spec_has_flag(key@, args.deep_view()),
{
    let n = args.len();
    let mut i: usize = 0;
    while i < n
        invariant
            n == args@.len(),
            0 <= i <= n,
            forall|j: int| 0 <= j < i ==> args.deep_view()[j] != key@,
        decreases n - i,
    {
        let hit = str_eq(args[i].as_str(), key);
        proof {
            assert(args.deep_view()[i as int] == args@[i as int]@);
        }
        if hit {
            return true;
        }
        i += 1;
    }
    false
}

} // verus!
