use vstd::prelude::*;

verus! {

/// Whether `s` begins with `p`.
pub open spec fn starts_with(s: Seq<u8>, p: Seq<u8>) -> bool {
    p.len() <= s.len() && s.subrange(0, p.len() as int) == p
}

/// `crate ::`, as a token printer spaces a path that starts at the crate root.
pub open spec fn crate_spaced() -> Seq<u8> {
    seq!['c' as u8, 'r' as u8, 'a' as u8, 't' as u8, 'e' as u8, ' ' as u8, ':' as u8, ':' as u8]
}

/// `crate::`.
pub open spec fn crate_tight() -> Seq<u8> {
    seq!['c' as u8, 'r' as u8, 'a' as u8, 't' as u8, 'e' as u8, ':' as u8, ':' as u8]
}

/// ` < `.
pub open spec fn lt_spaced() -> Seq<u8> {
    seq![' ' as u8, '<' as u8, ' ' as u8]
}

/// ` >`.
pub open spec fn gt_spaced() -> Seq<u8> {
    seq![' ' as u8, '>' as u8]
}

/// `!(`, which opens a macro call.
pub open spec fn macro_open() -> Seq<u8> {
    seq!['!' as u8, '(' as u8]
}

/// `s` with the code inside macro calls roughly formatted.
///
/// `depth` is `None` outside a macro call, and inside one the number of
/// parentheses opened since the call's own `!(`. Inside a call, `crate ::`
/// becomes `crate::`, ` < ` becomes `<` and ` >` becomes `>`; the call ends at
/// the `)` that closes it.
pub open spec fn formatted_from(s: Seq<u8>, depth: Option<nat>) -> Seq<u8>
    decreases s.len(),
{
    if s.len() == 0 {
        seq![]
    } else {
        match depth {
            None => if starts_with(s, macro_open()) {
                macro_open() + formatted_from(s.skip(2), Some(0))
            } else {
                seq![s[0]] + formatted_from(s.skip(1), None)
            },
            Some(d) => if s[0] == '(' as u8 {
                seq![s[0]] + formatted_from(s.skip(1), Some(d + 1))
            } else if s[0] == ')' as u8 {
                seq![s[0]] + formatted_from(
                    s.skip(1),
                    if d == 0 {
                        None
                    } else {
                        Some((d - 1) as nat)
                    },
                )
            } else if starts_with(s, crate_spaced()) {
                crate_tight() + formatted_from(s.skip(8), Some(d))
            } else if starts_with(s, lt_spaced()) {
                seq!['<' as u8] + formatted_from(s.skip(3), Some(d))
            } else if starts_with(s, gt_spaced()) {
                seq!['>' as u8] + formatted_from(s.skip(2), Some(d))
            } else {
                seq![s[0]] + formatted_from(s.skip(1), Some(d))
            },
        }
    }
}

/// `s` with the code inside each macro call roughly formatted.
pub open spec fn formatted(s: Seq<u8>) -> Seq<u8> {
    formatted_from(s, None)
}

/// Whether `s` holds the bytes of `p` from index `i` on.
fn matches_at(s: &Vec<u8>, i: usize, p: &[u8]) -> (r: bool)
    requires
        i <= s@.len(),
    ensures
        r == starts_with(s@.skip(i as int), p@),
{
    if p.len() > s.len() - i {
        return false;
    }
    let mut k: usize = 0;
    while k < p.len()
        invariant
            i + p@.len() <= s@.len() <= usize::MAX,
            k <= p@.len(),
            forall|j: int| 0 <= j < k ==> s@[i + j] == p@[j],
        decreases p@.len() - k,
    {
        if s[i + k] != p[k] {
            assert(s@.skip(i as int).subrange(0, p@.len() as int)[k as int] != p@[k as int]);
            return false;
        }
        k += 1;
    }
    assert(s@.skip(i as int).subrange(0, p@.len() as int) =~= p@);
    true
}

/// Appends the bytes of `p` to `out`.
fn push_all(out: &mut Vec<u8>, p: &[u8])
    ensures
        final(out)@ == old(out)@ + p@,
{
    let mut k: usize = 0;
    while k < p.len()
        invariant
            k <= p@.len(),
            out@ == old(out)@ + p@.subrange(0, k as int),
        decreases p@.len() - k,
    {
        out.push(p[k]);
        k += 1;
        assert(out@ =~= old(out)@ + p@.subrange(0, k as int));
    }
    assert(p@.subrange(0, p@.len() as int) =~= p@);
}

/// Roughly formats the code inside macro calls (`name!(...)`) of generated
/// source: `crate ::` becomes `crate::`, ` < ` becomes `<` and ` >` becomes `>`.
/// Text outside macro calls is left as it is.
pub fn format_macros(bytes: &mut Vec<u8>)
    ensures
        final(bytes)@ == formatted(old(bytes)@),
{
    let s: &Vec<u8> = bytes;
    let mut out: Vec<u8> = Vec::new();
    let mut i: usize = 0;
    let mut in_call: bool = false;
    let mut count: usize = 0;
    assert(s@.skip(0) =~= s@);
    while i < s.len()
        invariant
            i <= s@.len(),
            count <= i,
            out@ + formatted_from(
                s@.skip(i as int),
                if in_call {
                    Some(count as nat)
                } else {
                    None
                },
            ) == formatted(s@),
        decreases s@.len() - i,
    {
        let ghost rest = s@.skip(i as int);
        let b = s[i];
        assert(rest[0] == b);
        if !in_call {
            if matches_at(s, i, &['!' as u8, '(' as u8]) {
                assert(rest.skip(2) =~= s@.skip(i + 2));
                out.push('!' as u8);
                out.push('(' as u8);
                i += 2;
                in_call = true;
                count = 0;
            } else {
                assert(rest.skip(1) =~= s@.skip(i + 1));
                out.push(b);
                i += 1;
            }
        } else if b == '(' as u8 {
            assert(rest.skip(1) =~= s@.skip(i + 1));
            out.push(b);
            i += 1;
            count += 1;
        } else if b == ')' as u8 {
            assert(rest.skip(1) =~= s@.skip(i + 1));
            out.push(b);
            i += 1;
            if count == 0 {
                in_call = false;
            } else {
                count -= 1;
            }
        } else if matches_at(
            s,
            i,
            &['c' as u8, 'r' as u8, 'a' as u8, 't' as u8, 'e' as u8, ' ' as u8, ':' as u8, ':' as u8],
        ) {
            assert(rest.skip(8) =~= s@.skip(i + 8));
            push_all(
                &mut out,
                &['c' as u8, 'r' as u8, 'a' as u8, 't' as u8, 'e' as u8, ':' as u8, ':' as u8],
            );
            i += 8;
        } else if matches_at(s, i, &[' ' as u8, '<' as u8, ' ' as u8]) {
            assert(rest.skip(3) =~= s@.skip(i + 3));
            out.push('<' as u8);
            i += 3;
        } else if matches_at(s, i, &[' ' as u8, '>' as u8]) {
            assert(rest.skip(2) =~= s@.skip(i + 2));
            out.push('>' as u8);
            i += 2;
        } else {
            assert(rest.skip(1) =~= s@.skip(i + 1));
            out.push(b);
            i += 1;
        }
    }
    assert(s@.skip(i as int) =~= Seq::<u8>::empty());
    *bytes = out;
}

} // verus!
