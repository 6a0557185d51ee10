use vstd::prelude::*;

verus! {

/// The code column of a country record, or `UN` where the column is empty.
pub fn code_field_or_unknown<'a>(field: &'a str) -> (r: &'a str)
    ensures
        field@.len() > 0 ==> r@ == field@,
        field@.len() == 0 ==> r@ == seq!['U', 'N'],
{
    if field.is_empty() {
        proof {
            reveal_strlit("UN");
        }
        "UN"
    } else {
        field
    }
}

proof fn lemma_push_contains(s: Seq<u16>, c: u16)
    ensures
        forall|d: u16| s.push(c).contains(d) <==> s.contains(d) || d == c,
{
    assert forall|d: u16| s.push(c).contains(d) <==> s.contains(d) || d == c by {
        if s.push(c).contains(d) {
            let k = choose|k: int| 0 <= k < s.push(c).len() && s.push(c)[k] == d;
            if k < s.len() {
                assert(s[k] == d);
            }
        }
        if s.contains(d) {
            let k = choose|k: int| 0 <= k < s.len() && s[k] == d;
            assert(s.push(c)[k] == d);
        }
        if d == c {
            assert(s.push(c)[s.len() as int] == c);
        }
    }
}

pub open spec fn strictly_increasing(s: Seq<u16>) -> bool {
    forall|i: int, j: int| 0 <= i < j < s.len() ==> s[i] < s[j]
}

/// The country codes of a ban list in increasing order, each once. A
/// two-letter code is read as a big-endian `u16`, so this is also the order
/// of the letters.
pub fn sorted_unique_codes(codes: &Vec<u16>) -> (r: Vec<u16>)
    ensures
        strictly_increasing(r@),
        forall|c: u16| r@.contains(c) <==> codes@.contains(c),
{
    let mut out: Vec<u16> = Vec::new();
    let mut i: usize = 0;
    while i < codes.len()
        invariant
            0 <= i <= codes.len(),
            strictly_increasing(out@),
            forall|c: u16| out@.contains(c) <==> codes@.subrange(0, i as int).contains(c),
        decreases codes.len() - i,
    {
        let c = codes[i];
        let ghost before = out@;
        let mut j: usize = 0;
        while j < out.len() && out[j] < c
            invariant
                0 <= j <= out.len(),
                out@ == before,
                forall|k: int| 0 <= k < j ==> out@[k] < c,
            decreases out.len() - j,
        {
            j = j + 1;
        }
        if j < out.len() && out[j] == c {
            assert(before.contains(c));
            assert forall|d: u16| out@.contains(d) <==> before.contains(d) || d == c by {
                if d == c {
                    assert(before.contains(c));
                }
            }
        } else {
            // everything from `j` on is above `c`
            assert(forall|k: int| j <= k < before.len() ==> before[k] > c) by {
                assert forall|k: int| j <= k < before.len() implies before[k] > c by {
                    if k > j {
                        assert(before[j as int] < before[k]);
                    }
                }
            }
            out.insert(j, c);
            assert(out@ =~= before.insert(j as int, c));
            assert forall|d: u16| out@.contains(d) <==> before.contains(d) || d == c by {
                if out@.contains(d) {
                    let k = choose|k: int| 0 <= k < out@.len() && out@[k] == d;
                    if k < j {
                        assert(before[k] == d);
                    } else if k > j {
                        assert(before[k - 1] == d);
                    }
                }
                if before.contains(d) {
                    let k = choose|k: int| 0 <= k < before.len() && before[k] == d;
                    if k < j {
                        assert(out@[k] == d);
                    } else {
                        assert(out@[k + 1] == d);
                    }
                }
                if d == c {
                    assert(out@[j as int] == c);
                }
            }
        }
        assert forall|d: u16| out@.contains(d) <==> codes@.subrange(0, i + 1).contains(d) by {
            assert(codes@.subrange(0, i + 1) =~= codes@.subrange(0, i as int).push(c));
            lemma_push_contains(codes@.subrange(0, i as int), c);
            assert(out@.contains(d) <==> before.contains(d) || d == c);
            assert(before.contains(d) <==> codes@.subrange(0, i as int).contains(d));
            assert(codes@.subrange(0, i as int).push(c).contains(d) <==> codes@.subrange(
                0,
                i as int,
            ).contains(d) || d == c);
        }
        i = i + 1;
    }
    assert(codes@.subrange(0, codes@.len() as int) =~= codes@);
    out
}

} // verus!
