use vstd::prelude::*;

verus! {

// Sequence id discovery: the first capture after startup scans the output
// directory once and derives the next id from file names that end in an
// underscore-separated decimal suffix before the extension. Names that do
// not match the pattern are ignored.

/// A decimal digit byte, `0` through `9`.
pub open spec fn is_digit(b: u8) -> bool {
    48 <= b <= 57
}

/// The number a string of decimal digit bytes denotes, most significant
/// digit first.
pub open spec fn dec_value(s: Seq<u8>) -> nat
    recommends
        all_digits(s),
    decreases s.len(),
{
    if s.len() == 0 {
        0
    } else {
        (dec_value(s.drop_last()) * 10 + (s.last() - 48)) as nat
    }
}

pub open spec fn all_digits(s: Seq<u8>) -> bool {
    forall|i: int| 0 <= i < s.len() ==> is_digit(s[i])
}

/// Whether `s` parses as an unsigned 64-bit number: nonempty, digits only,
/// and small enough.
pub open spec fn parses_u64(s: Seq<u8>) -> bool {
    s.len() > 0 && all_digits(s) && dec_value(s) <= u64::MAX
}

/// A longer digit string never denotes less than its prefix.
proof fn lemma_dec_value_prefix_monotone(s: Seq<u8>, k: int)
    requires
        0 <= k <= s.len(),
        all_digits(s),
    ensures
        dec_value(s.subrange(0, k)) <= dec_value(s),
    decreases s.len() - k,
{
    if k < s.len() {
        assert(s.subrange(0, k + 1).drop_last() =~= s.subrange(0, k));
        assert(s.subrange(0, k + 1).last() == s[k]);
        lemma_dec_value_prefix_monotone(s, k + 1);
    } else {
        assert(s.subrange(0, s.len() as int) =~= s);
    }
}

pub fn parse_u64_digits(s: &[u8]) -> (r: Option<u64>)
    ensures
        parses_u64(s@) ==> r == Some((dec_value(s@) as u64)),
        !parses_u64(s@) ==> r is None,
{
    if s.len() == 0 {
        return None;
    }
    let mut acc: u64 = 0;
    let mut i: usize = 0;
    while i < s.len()
        invariant
            i <= s@.len(),
            all_digits(s@.subrange(0, i as int)),
            acc == dec_value(s@.subrange(0, i as int)),
        decreases s@.len() - i,
    {
        let b = s[i];
        if b < 48 || b > 57 {
            assert(!is_digit(s@[i as int]));
            return None;
        }
        let d = (b - 48) as u64;
        proof {
            assert(s@.subrange(0, i + 1).drop_last() =~= s@.subrange(0, i as int));
            assert(s@.subrange(0, i + 1).last() == s@[i as int]);
        }
        let shifted = acc.checked_mul(10);
        let next = match shifted {
            Some(m) => m.checked_add(d),
            None => None,
        };
        match next {
            Some(n) => {
                acc = n;
            },
            None => {
                proof {
                    if all_digits(s@) {
                        lemma_dec_value_prefix_monotone(s@, i + 1);
                    }
                }
                return None;
            },
        }
        i = i + 1;
    }
    assert(s@.subrange(0, s@.len() as int) =~= s@);
    Some(acc)
}

/// The index of the last occurrence of `b` in `s`, or -1 when `b` is absent.
pub open spec fn last_index_of(s: Seq<u8>, b: u8) -> int
    decreases s.len(),
{
    if s.len() == 0 {
        -1
    } else if s.last() == b {
        s.len() - 1
    } else {
        last_index_of(s.drop_last(), b)
    }
}

fn find_last(s: &[u8], b: u8) -> (r: Option<usize>)
    ensures
        match r {
            Some(i) => i < s@.len() && last_index_of(s@, b) == i as int,
            None => last_index_of(s@, b) == -1,
        },
{
    assert(s@.subrange(0, s@.len() as int) =~= s@);
    let mut j: usize = s.len();
    while j > 0
        invariant
            j <= s@.len(),
            last_index_of(s@, b) == last_index_of(s@.subrange(0, j as int), b),
        decreases j,
    {
        if s[j - 1] == b {
            assert(s@.subrange(0, j as int).last() == s@[j - 1]);
            return Some(j - 1);
        }
        proof {
            assert(s@.subrange(0, j as int).last() == s@[j - 1]);
            assert(s@.subrange(0, j as int).drop_last() =~= s@.subrange(0, j - 1));
        }
        j = j - 1;
    }
    assert(s@.subrange(0, 0) =~= Seq::<u8>::empty());
    None
}

/// The file stem: the name up to its last dot (code 46); the whole name when
/// there is no dot past the first byte, so a bare leading dot marks no
/// extension.
pub open spec fn spec_file_stem(name: Seq<u8>) -> Seq<u8> {
    let d = last_index_of(name, 46);
    if d <= 0 {
        name
    } else {
        name.subrange(0, d)
    }
}

/// The part of the stem after its last underscore (code 95); the whole stem
/// when it has none.
pub open spec fn spec_id_suffix(stem: Seq<u8>) -> Seq<u8> {
    let u = last_index_of(stem, 95);
    stem.subrange(u + 1, stem.len() as int)
}

pub fn file_stem_bytes<'a>(name: &'a [u8]) -> (r: &'a [u8])
    ensures
        r@ == spec_file_stem(name@),
{
    match find_last(name, 46) {
        Some(d) => {
            if d > 0 {
                let r = &name[0..d];
                assert(r@ =~= name@.subrange(0, d as int));
                r
            } else {
                name
            }
        },
        None => name,
    }
}

pub fn id_suffix_bytes<'a>(stem: &'a [u8]) -> (r: &'a [u8])
    ensures
        r@ == spec_id_suffix(stem@),
{
    match find_last(stem, 95) {
        Some(u) => {
            let n = stem.len();
            let r = &stem[u + 1..n];
            assert(r@ =~= stem@.subrange(u + 1, stem@.len() as int));
            r
        },
        None => {
            assert(stem@.subrange(0, stem@.len() as int) =~= stem@);
            stem
        },
    }
}

/// The sequence number a file name carries, if it matches the pattern.
pub open spec fn name_value(name: Seq<u8>) -> Option<nat> {
    if parses_u64(spec_id_suffix(spec_file_stem(name))) {
        Some(dec_value(spec_id_suffix(spec_file_stem(name))))
    } else {
        None
    }
}

/// The greatest sequence number any of `names` carries, `None` when no name
/// matches the pattern.
pub open spec fn max_name_value(names: Seq<Seq<u8>>) -> Option<nat>
    decreases names.len(),
{
    if names.len() == 0 {
        None
    } else {
        let rest = max_name_value(names.drop_last());
        match name_value(names.last()) {
            None => rest,
            Some(v) => match rest {
                None => Some(v),
                Some(m) => Some(
                    if v > m {
                        v
                    } else {
                        m
                    },
                ),
            },
        }
    }
}

/// The id the first capture uses: one past the greatest suffix any matching
/// file name carries (clamped at the largest id), and zero when the
/// directory is empty or no name matches.
pub open spec fn spec_next_sequence_id(names: Seq<Seq<u8>>) -> nat {
    match max_name_value(names) {
        None => 0,
        Some(m) => if m >= u64::MAX {
            u64::MAX as nat
        } else {
            m + 1
        },
    }
}

pub fn next_sequence_id(names: &Vec<Vec<u8>>) -> (r: u64)
    ensures
        r as nat == spec_next_sequence_id(names.deep_view()),
{
    let ghost all: Seq<Seq<u8>> = names.deep_view();
    let mut best: Option<u64> = None;
    let mut k: usize = 0;
    assert(all.subrange(0, 0) =~= Seq::<Seq<u8>>::empty());
    while k < names.len()
        invariant
            k <= names@.len(),
            all == names.deep_view(),
            all.len() == names@.len(),
            match best {
                None => max_name_value(all.subrange(0, k as int)) is None,
                Some(bv) => max_name_value(all.subrange(0, k as int)) == Some(bv as nat),
            },
        decreases names@.len() - k,
    {
        let name = &names[k];
        proof {
            assert(all[k as int] =~= name@);
        }
        let stem = file_stem_bytes(name.as_slice());
        let suffix = id_suffix_bytes(stem);
        let parsed = parse_u64_digits(suffix);
        proof {
            assert(all.subrange(0, k + 1).drop_last() =~= all.subrange(0, k as int));
            assert(all.subrange(0, k + 1).last() == all[k as int]);
        }
        match parsed {
            Some(v) => {
                match best {
                    None => {
                        best = Some(v);
                    },
                    Some(b) => {
                        if v > b {
                            best = Some(v);
                        }
                    },
                }
            },
            None => {},
        }
        k = k + 1;
    }
    assert(all.subrange(0, all.len() as int) =~= all);
    match best {
        None => 0,
        Some(b) => {
            if b == u64::MAX {
                b
            } else {
                b + 1
            }
        },
    }
}

} // verus!
