//! Byte-level text: decimal rendering of integers and literal placeholder
//! substitution.
use vstd::prelude::*;

verus! {

/// The ASCII decimal digits of `n`, most significant first, with no leading zeros.
pub open spec fn decimal(n: nat) -> Seq<u8>
    decreases n,
{
    if n < 10 {
        seq![(48 + n) as u8]
    } else {
        decimal(n / 10).push((48 + n % 10) as u8)
    }
}

/// Whether `tok` occurs in `s` starting at position `i`.
pub open spec fn occurs_at(s: Seq<u8>, tok: Seq<u8>, i: int) -> bool {
    0 <= i && i + tok.len() <= s.len() && s.subrange(i, i + tok.len()) == tok
}

/// `s` with every occurrence of `tok` replaced by `rep`, scanning from the left
/// and never matching inside a replacement; all other bytes are kept as they are.
pub open spec fn replace_all(s: Seq<u8>, tok: Seq<u8>, rep: Seq<u8>) -> Seq<u8>
    decreases s.len(),
{
    if s.len() == 0 {
        Seq::empty()
    } else if tok.len() > 0 && occurs_at(s, tok, 0) {
        rep + replace_all(s.skip(tok.len() as int), tok, rep)
    } else {
        seq![s[0]] + replace_all(s.skip(1), tok, rep)
    }
}

/// The decimal digits of a number are a non-empty run of ASCII digits.
pub proof fn lemma_decimal_digits(n: nat)
    ensures
        decimal(n).len() > 0,
        forall|j: int| 0 <= j < decimal(n).len() ==> 48 <= #[trigger] decimal(n)[j] <= 57,
    decreases n,
{
    if n >= 10 {
        lemma_decimal_digits(n / 10);
    }
}

/// Where no byte of `w` starts `rep`, a prefix `w` of the replaced text was
/// already a prefix of the original text.
proof fn lemma_prefix_from_source(t: Seq<u8>, tok: Seq<u8>, rep: Seq<u8>, w: Seq<u8>)
    requires
        rep.len() > 0,
        forall|j: int| 0 <= j < w.len() ==> w[j] != rep[0],
        w.len() <= replace_all(t, tok, rep).len(),
        replace_all(t, tok, rep).subrange(0, w.len() as int) == w,
    ensures
        w.len() <= t.len(),
        t.subrange(0, w.len() as int) == w,
    decreases t.len(),
{
    let r = replace_all(t, tok, rep);
    if w.len() == 0 {
        assert(t.subrange(0, 0) =~= w);
    } else if t.len() == 0 {
        assert(r.len() == 0);
    } else if tok.len() > 0 && occurs_at(t, tok, 0) {
        assert(r[0] == rep[0]);
        assert(r.subrange(0, w.len() as int)[0] == w[0]);
    } else {
        let rest = replace_all(t.skip(1), tok, rep);
        assert(r == seq![t[0]] + rest);
        let w1 = w.skip(1);
        assert(rest.subrange(0, w1.len() as int) =~= r.subrange(0, w.len() as int).skip(1));
        lemma_prefix_from_source(t.skip(1), tok, rep, w1);
        assert(r.subrange(0, w.len() as int)[0] == w[0]);
        assert(t.subrange(0, w.len() as int) =~= seq![t[0]] + t.skip(1).subrange(0, w1.len() as int));
        assert(seq![w[0]] + w1 =~= w);
    }
}

/// Replacing leaves no occurrence of the token behind, provided the
/// replacement cannot form one with its surroundings: the token's first byte
/// is not in the replacement, and the replacement's first byte is not among
/// the token's other bytes.
pub proof fn lemma_replace_leaves_no_token(s: Seq<u8>, tok: Seq<u8>, rep: Seq<u8>)
    requires
        tok.len() > 0,
        rep.len() > 0,
        forall|j: int| 0 <= j < rep.len() ==> rep[j] != tok[0],
        forall|j: int| 1 <= j < tok.len() ==> tok[j] != rep[0],
    ensures
        forall|i: int| !occurs_at(replace_all(s, tok, rep), tok, i),
    decreases s.len(),
{
    let r = replace_all(s, tok, rep);
    if s.len() > 0 {
        if occurs_at(s, tok, 0) {
            let rest = replace_all(s.skip(tok.len() as int), tok, rep);
            lemma_replace_leaves_no_token(s.skip(tok.len() as int), tok, rep);
            assert(r == rep + rest);
            assert forall|i: int| !occurs_at(r, tok, i) by {
                if occurs_at(r, tok, i) {
                    if i < rep.len() {
                        assert(r.subrange(i, i + tok.len())[0] == r[i]);
                    } else {
                        assert(rest.subrange(i - rep.len(), i - rep.len() + tok.len())
                            =~= r.subrange(i, i + tok.len()));
                        assert(occurs_at(rest, tok, i - rep.len()));
                    }
                }
            }
        } else {
            let t = s.skip(1);
            let rest = replace_all(t, tok, rep);
            lemma_replace_leaves_no_token(t, tok, rep);
            assert(r == seq![s[0]] + rest);
            assert forall|i: int| !occurs_at(r, tok, i) by {
                if occurs_at(r, tok, i) {
                    if i == 0 {
                        let w = tok.skip(1);
                        assert(rest.subrange(0, w.len() as int) =~= r.subrange(0, tok.len() as int).skip(1));
                        lemma_prefix_from_source(t, tok, rep, w);
                        assert(r.subrange(0, tok.len() as int)[0] == s[0]);
                        assert(s.subrange(0, tok.len() as int) =~= seq![s[0]] + t.subrange(0, w.len() as int));
                        assert(seq![tok[0]] + w =~= tok);
                        assert(occurs_at(s, tok, 0));
                    } else {
                        assert(rest.subrange(i - 1, i - 1 + tok.len()) =~= r.subrange(i, i + tok.len()));
                        assert(occurs_at(rest, tok, i - 1));
                    }
                }
            }
        }
    }
}

/// Appends the decimal digits of `n` to `out`.
pub fn push_decimal(n: u64, out: &mut Vec<u8>)
    ensures
        final(out)@ == old(out)@ + decimal(n as nat),
    decreases n,
{
    if n >= 10 {
        push_decimal(n / 10, out);
    }
    out.push((48 + n % 10) as u8);
    proof {
        assert(final(out)@ =~= old(out)@ + decimal(n as nat));
    }
}

/// The decimal digits of `n`.
pub fn decimal_bytes(n: u64) -> (r: Vec<u8>)
    ensures
        r@ == decimal(n as nat),
{
    let mut out: Vec<u8> = Vec::new();
    push_decimal(n, &mut out);
    proof {
        assert(out@ =~= decimal(n as nat));
    }
    out
}

/// Whether `tok` occurs in `s` at position `i`.
pub fn matches_at(s: &[u8], tok: &[u8], i: usize) -> (r: bool)
    ensures
        r == occurs_at(s@, tok@, i as int),
{
    if tok.len() > s.len() || i > s.len() - tok.len() {
        return false;
    }
    let mut k: usize = 0;
    while k < tok.len()
        invariant
            k <= tok.len(),
            i + tok.len() <= s.len(),
            forall|j: int| 0 <= j < k ==> s@[i + j] == tok@[j],
        decreases tok.len() - k,
    {
        if s[i + k] != tok[k] {
            assert(s@.subrange(i as int, i + tok.len())[k as int] != tok@[k as int]);
            return false;
        }
        k += 1;
    }
    assert(s@.subrange(i as int, i + tok.len()) =~= tok@);
    true
}

/// `s` with every occurrence of `tok` replaced by `rep`.
pub fn replace_bytes(s: &[u8], tok: &[u8], rep: &[u8]) -> (r: Vec<u8>)
    ensures
        r@ == replace_all(s@, tok@, rep@),
{
    let mut out: Vec<u8> = Vec::new();
    let mut i: usize = 0;
    proof {
        assert(s@.skip(0) =~= s@);
        assert(out@ + replace_all(s@, tok@, rep@) =~= replace_all(s@, tok@, rep@));
    }
    while i < s.len()
        invariant
            i <= s.len(),
            out@ + replace_all(s@.skip(i as int), tok@, rep@) == replace_all(s@, tok@, rep@),
        decreases s.len() - i,
    {
        let ghost rest = s@.skip(i as int);
        let hit = tok.len() > 0 && matches_at(s, tok, i);
        proof {
            assert(occurs_at(s@, tok@, i as int) == occurs_at(rest, tok@, 0)) by {
                if i + tok.len() <= s.len() {
                    assert(s@.subrange(i as int, i + tok.len()) =~= rest.subrange(0, tok.len() as int));
                }
            }
        }
        if hit {
            let mut k: usize = 0;
            let ghost before = out@;
            while k < rep.len()
                invariant
                    k <= rep.len(),
                    out@ == before + rep@.subrange(0, k as int),
                decreases rep.len() - k,
            {
                out.push(rep[k]);
                k += 1;
                proof {
                    assert(out@ =~= before + rep@.subrange(0, k as int));
                }
            }
            proof {
                assert(rep@.subrange(0, rep.len() as int) =~= rep@);
                assert(rest.skip(tok.len() as int) =~= s@.skip(i + tok.len()));
                assert(out@ + replace_all(s@.skip(i + tok.len()), tok@, rep@)
                    =~= before + replace_all(rest, tok@, rep@));
            }
            i = i + tok.len();
        } else {
            let ghost before = out@;
            out.push(s[i]);
            proof {
                assert(rest.skip(1) =~= s@.skip(i + 1));
                assert(out@ + replace_all(s@.skip(i + 1), tok@, rep@)
                    =~= before + replace_all(rest, tok@, rep@));
            }
            i = i + 1;
        }
    }
    proof {
        assert(s@.skip(i as int) =~= Seq::<u8>::empty());
        assert(out@ =~= out@ + replace_all(s@.skip(i as int), tok@, rep@));
    }
    out
}

} // verus!
