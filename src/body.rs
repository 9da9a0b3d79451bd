use vstd::prelude::*;

verus! {

/// The opening of a fenced code block tagged as shell.
pub open spec fn shell_marker() -> Seq<char> {
    seq!['`', '`', '`', 's', 'h', 'e', 'l', 'l']
}

/// The opening of a fenced code block tagged as bash.
pub open spec fn bash_marker() -> Seq<char> {
    seq!['`', '`', '`', 'b', 'a', 's', 'h']
}

pub open spec fn starts_with(s: Seq<char>, p: Seq<char>) -> bool {
    p.len() <= s.len() && s.take(p.len() as int) == p
}

/// Every shell marker, found left to right without overlap, is replaced by a
/// bash marker; everything else is kept.
pub open spec fn replace_shell(s: Seq<char>) -> Seq<char>
    decreases s.len(),
{
    if s.len() == 0 {
        Seq::empty()
    } else if starts_with(s, shell_marker()) {
        bash_marker() + replace_shell(s.skip(8))
    } else {
        seq![s[0]] + replace_shell(s.skip(1))
    }
}

fn collect_chars(s: &str) -> (r: Vec<char>)
    ensures
        r@ == s@,
{
    let mut out: Vec<char> = Vec::new();
    for c in it: s.chars()
        invariant
            out@ == it.seq().take(it.index()),
    {
        out.push(c);
    }
    out
}

fn shell_marker_at(chars: &Vec<char>, i: usize) -> (b: bool)
    requires
        i <= chars.len(),
    ensures
        b == starts_with(chars@.skip(i as int), shell_marker()),
{
    if chars.len() - i < 8 {
        return false;
    }
    let b = chars[i] == '`' && chars[i + 1] == '`' && chars[i + 2] == '`' && chars[i + 3] == 's'
        && chars[i + 4] == 'h' && chars[i + 5] == 'e' && chars[i + 6] == 'l' && chars[i + 7] == 'l';
    proof {
        let t = chars@.skip(i as int).take(8);
        if b {
            assert(t =~= shell_marker());
        } else {
            if t == shell_marker() {
                assert(t[0] == '`' && t[1] == '`' && t[2] == '`' && t[3] == 's');
                assert(t[4] == 'h' && t[5] == 'e' && t[6] == 'l' && t[7] == 'l');
            }
        }
    }
    b
}

/// Rewrites every shell-tagged code fence in `content` into a bash-tagged one.
pub fn transform_body(content: &str) -> (r: String)
    ensures
        r@ == replace_shell(content@),
{
    let chars = collect_chars(content);
    let n = chars.len();
    let mut out = String::new();
    let mut seg: usize = 0;
    let mut i: usize = 0;
    proof {
        assert(content@.skip(0) =~= content@);
        assert(out@ + content@.subrange(0, 0) =~= Seq::<char>::empty());
    }
    while i < n
        invariant
            n == chars.len(),
            chars@ == content@,
            seg <= i <= n,
            out@ + content@.subrange(seg as int, i as int) + replace_shell(content@.skip(i as int))
                == replace_shell(content@),
        decreases n - i,
    {
        let ghost s = content@;
        if shell_marker_at(&chars, i) {
            let piece = content.substring_char(seg, i);
            out.append(piece);
            out.append("```bash");
            proof {
                reveal_strlit("```bash");
                assert(s.skip(i as int).skip(8) =~= s.skip(i + 8));
                assert("```bash"@ =~= bash_marker());
            }
            i = i + 8;
            seg = i;
            proof {
                assert(s.subrange(seg as int, i as int) =~= Seq::<char>::empty());
            }
        } else {
            proof {
                assert(s.skip(i as int).skip(1) =~= s.skip(i + 1));
                assert(s.subrange(seg as int, i as int) + seq![s[i as int]]
                    =~= s.subrange(seg as int, i + 1));
            }
            i = i + 1;
        }
    }
    let rest = content.substring_char(seg, n);
    out.append(rest);
    proof {
        assert(content@.skip(n as int) =~= Seq::<char>::empty());
    }
    out
}

proof fn lemma_starts_with_at(s: Seq<char>, p: Seq<char>, j: int)
    requires
        starts_with(s, p),
        0 <= j < p.len(),
    ensures
        s[j] == p[j],
{
    assert(s.take(p.len() as int)[j] == s[j]);
}

proof fn lemma_kept(p: Seq<char>, t: Seq<char>)
    requires
        forall|k: int| 0 <= k < p.len() ==> !starts_with(#[trigger] p.skip(k) + t, shell_marker()),
    ensures
        replace_shell(p + t) == p + replace_shell(t),
    decreases p.len(),
{
    if p.len() == 0 {
        assert(p + t =~= t);
        assert(p + replace_shell(t) =~= replace_shell(t));
    } else {
        let s = p + t;
        assert(p.skip(0) =~= p);
        assert(s.skip(1) =~= p.skip(1) + t);
        assert forall|k: int| 0 <= k < p.skip(1).len() implies !starts_with(
            #[trigger] p.skip(1).skip(k) + t,
            shell_marker(),
        ) by {
            assert(p.skip(1).skip(k) =~= p.skip(k + 1));
        }
        lemma_kept(p.skip(1), t);
        assert(seq![s[0]] + (p.skip(1) + replace_shell(t)) =~= p + replace_shell(t));
    }
}

proof fn lemma_bash_kept(t: Seq<char>)
    ensures
        replace_shell(bash_marker() + t) == bash_marker() + replace_shell(t),
{
    let b = bash_marker();
    let m = shell_marker();
    assert forall|k: int| 0 <= k < b.len() implies !starts_with(#[trigger] b.skip(k) + t, m) by {
        let x = b.skip(k) + t;
        if starts_with(x, m) {
            if k == 0 {
                lemma_starts_with_at(x, m, 3);
            } else if k == 1 {
                lemma_starts_with_at(x, m, 2);
            } else if k == 2 {
                lemma_starts_with_at(x, m, 1);
            } else {
                lemma_starts_with_at(x, m, 0);
            }
        }
    }
    lemma_kept(b, t);
}

proof fn lemma_no_new_marker(t: Seq<char>, k: int)
    requires
        0 <= k < 8,
        starts_with(replace_shell(t), shell_marker().skip(k)),
    ensures
        k > 0,
        starts_with(t, shell_marker().skip(k)),
    decreases t.len(),
{
    let m = shell_marker();
    let suf = m.skip(k);
    let r = replace_shell(t);
    if t.len() == 0 {
        assert(r.len() == 0);
    } else if starts_with(t, m) {
        let b = bash_marker();
        assert(r[0] == b[0] && r[1] == b[1] && r[2] == b[2] && r[3] == b[3]);
        if k == 0 {
            lemma_starts_with_at(r, suf, 3);
        } else if k == 1 {
            lemma_starts_with_at(r, suf, 2);
        } else if k == 2 {
            lemma_starts_with_at(r, suf, 1);
        } else {
            lemma_starts_with_at(r, suf, 0);
        }
    } else {
        let rest = replace_shell(t.skip(1));
        assert(r == seq![t[0]] + rest);
        lemma_starts_with_at(r, suf, 0);
        if k < 7 {
            assert(rest.take(7 - k) =~= r.take(8 - k).skip(1));
            assert(suf.skip(1) =~= m.skip(k + 1));
            lemma_no_new_marker(t.skip(1), k + 1);
            assert(t.take(8 - k) =~= seq![t[0]] + t.skip(1).take(7 - k));
            assert(suf =~= seq![suf[0]] + m.skip(k + 1));
        } else {
            assert(t.take(1) =~= seq![t[0]]);
            assert(suf =~= seq![suf[0]]);
        }
        if k == 0 {
            assert(suf =~= m);
        }
    }
}

/// Rewriting the body a second time changes nothing: no shell marker is left,
/// and none is formed across a replacement.
pub proof fn transform_body_idempotent(s: Seq<char>)
    ensures
        replace_shell(replace_shell(s)) == replace_shell(s),
    decreases s.len(),
{
    if s.len() > 0 {
        if starts_with(s, shell_marker()) {
            transform_body_idempotent(s.skip(8));
            lemma_bash_kept(replace_shell(s.skip(8)));
        } else {
            let r = replace_shell(s);
            let rest = replace_shell(s.skip(1));
            assert(shell_marker().skip(0) =~= shell_marker());
            if starts_with(r, shell_marker()) {
                lemma_no_new_marker(s, 0);
            }
            assert(r.skip(1) =~= rest);
            transform_body_idempotent(s.skip(1));
        }
    }
}

/// The rewrite cannot be undone: a body that opens with a shell marker and
/// one that opens with a bash marker, otherwise alike, come out the same.
pub proof fn transform_body_forgets_marker(t: Seq<char>)
    ensures
        shell_marker() + t != bash_marker() + t,
        replace_shell(shell_marker() + t) == replace_shell(bash_marker() + t),
{
    let s = shell_marker() + t;
    assert(s.len() != (bash_marker() + t).len());
    assert(s.take(8) =~= shell_marker());
    assert(s.skip(8) =~= t);
    lemma_bash_kept(t);
}

} // verus!
