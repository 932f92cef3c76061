//! What each tunnel text that splitting writes summarises to.

use vstd::prelude::*;
use crate::custom_tunnel::{tunnel_text, tunnel_texts};
use crate::config_laws::lemma_lines_state_of_line;
use crate::ini::{
    bracketed, section_header, block_text, ini_split, ini_summary, is_blank_or_comment, lemma_lines_after_break, lemma_trim_ends,
    split_lines, split_parts_summarise_alone, summary_of_lines, IniSummary,
};
use crate::text::{is_white, join, lines, lines_state, strip_cr, trim, trim_end, trim_start};

verus! {

/// The lines summarising reads: each trimmed, blank and comment lines left
/// out.
pub open spec fn relevant(ls: Seq<Seq<char>>) -> Seq<Seq<char>>
    decreases ls.len(),
{
    if ls.len() == 0 {
        ls
    } else if is_blank_or_comment(trim(ls.last())) {
        relevant(ls.drop_last())
    } else {
        relevant(ls.drop_last()).push(trim(ls.last()))
    }
}

proof fn lemma_relevant_concat(a: Seq<Seq<char>>, b: Seq<Seq<char>>)
    ensures
        relevant(a + b) == relevant(a) + relevant(b),
    decreases b.len(),
{
    if b.len() == 0 {
        assert(a + b =~= a);
        assert(relevant(a) + relevant(b) =~= relevant(a));
    } else {
        lemma_relevant_concat(a, b.drop_last());
        assert((a + b).drop_last() =~= a + b.drop_last());
        assert((a + b).last() == b.last());
        assert((relevant(a) + relevant(b.drop_last())).push(trim(b.last())) =~= relevant(a) + relevant(
            b.drop_last(),
        ).push(trim(b.last())));
    }
}

proof fn lemma_trim_idem(x: Seq<char>)
    ensures
        trim(trim(x)) == trim(x),
{
    lemma_trim_ends(x);
    let t = trim(x);
    if t.len() > 0 {
        assert(trim_start(t) == t);
        assert(trim_end(t) == t);
    }
}

/// Summarising reads only the relevant lines.
pub(crate) proof fn lemma_summary_relevant(ls: Seq<Seq<char>>, checked: bool)
    ensures
        summary_of_lines(ls, checked) == summary_of_lines(relevant(ls), checked),
    decreases ls.len(),
{
    if ls.len() > 0 {
        lemma_summary_relevant(ls.drop_last(), checked);
        lemma_trim_idem(ls.last());
        let r = relevant(ls.drop_last());
        if !is_blank_or_comment(trim(ls.last())) {
            assert(r.push(trim(ls.last())).drop_last() =~= r);
        }
    }
}

proof fn lemma_trim_front_white(c: char, y: Seq<char>)
    requires
        is_white(c),
    ensures
        trim(seq![c] + y) == trim(y),
{
    assert((seq![c] + y).drop_first() =~= y);
}

proof fn lemma_trim_start_push(y: Seq<char>, c: char)
    ensures
        trim_start(y.push(c)) == if trim_start(y).len() > 0 {
            trim_start(y).push(c)
        } else {
            trim_start(seq![c])
        },
    decreases y.len(),
{
    if y.len() > 0 {
        if is_white(y[0]) {
            assert(y.push(c).drop_first() =~= y.drop_first().push(c));
            lemma_trim_start_push(y.drop_first(), c);
        }
    } else {
        assert(y.push(c) =~= seq![c]);
    }
}

proof fn lemma_trim_back_white(y: Seq<char>, c: char)
    requires
        is_white(c),
    ensures
        trim(y.push(c)) == trim(y),
{
    lemma_trim_start_push(y, c);
    if trim_start(y).len() > 0 {
        assert(trim_start(y).push(c).drop_last() =~= trim_start(y));
        assert(trim_end(trim_start(y).push(c)) == trim_end(trim_start(y)));
    } else {
        assert(seq![c].drop_first() =~= Seq::<char>::empty());
        assert(trim_start(seq![c]) == trim_start(Seq::<char>::empty()));
        assert(trim_start(y.push(c)).len() == 0);
    }
}

proof fn lemma_trim_strip_cr(y: Seq<char>)
    ensures
        trim(strip_cr(y)) == trim(y),
{
    if y.len() > 0 && y.last() == '\r' {
        lemma_trim_back_white(y.drop_last(), '\r');
        assert(y.drop_last().push('\r') =~= y);
    }
}

/// The relevant lines of a text whose last open line is `u` after the
/// finished lines `d`.
proof fn lemma_relevant_lines(s: Seq<char>)
    ensures
        relevant(lines(s)) == if is_blank_or_comment(trim(lines_state(s).1)) {
            relevant(lines_state(s).0)
        } else {
            relevant(lines_state(s).0).push(trim(lines_state(s).1))
        },
{
    let (d, u) = lines_state(s);
    if u.len() > 0 {
        assert(d.push(u).drop_last() =~= d);
    } else {
        assert(trim_start(u) == u);
    }
}

/// Dropping a white character from the end of a text keeps its relevant
/// lines.
proof fn lemma_relevant_drop_last(s: Seq<char>)
    requires
        s.len() > 0,
        is_white(s.last()),
    ensures
        relevant(lines(s)) == relevant(lines(s.drop_last())),
{
    let (d0, u0) = lines_state(s.drop_last());
    lemma_relevant_lines(s);
    lemma_relevant_lines(s.drop_last());
    if s.last() == '\n' {
        lemma_trim_strip_cr(u0);
        assert(d0.push(strip_cr(u0)).drop_last() =~= d0);
        assert(trim_start(Seq::<char>::empty()) == Seq::<char>::empty());
    } else {
        lemma_trim_back_white(u0, s.last());
    }
}

proof fn lemma_relevant_trim_end(s: Seq<char>)
    ensures
        relevant(lines(trim_end(s))) == relevant(lines(s)),
    decreases s.len(),
{
    if s.len() > 0 && is_white(s.last()) {
        lemma_relevant_drop_last(s);
        lemma_relevant_trim_end(s.drop_last());
    }
}

/// Reading a text with one more white character in front.
#[verifier::spinoff_prover]
proof fn lemma_front_white_state(c: char, s: Seq<char>)
    requires
        is_white(c),
        c != '\n',
    ensures
        ({
            let (d, u) = lines_state(s);
            let (d2, u2) = lines_state(seq![c] + s);
            &&& d.len() == 0 ==> d2.len() == 0 && u2 == seq![c] + u
            &&& d.len() > 0 ==> relevant(d2) == relevant(d) && u2 == u
        }),
    decreases s.len(),
{
    if s.len() == 0 {
        assert(seq![c] + s =~= seq![c]);
        assert(seq![c].drop_last() =~= Seq::<char>::empty());
        assert(seq![c] + Seq::<char>::empty() =~= seq![c]);
        assert(lines_state(Seq::<char>::empty()) == (Seq::<Seq<char>>::empty(), Seq::<char>::empty()));
        assert(lines_state(seq![c]) == (Seq::<Seq<char>>::empty(), Seq::<char>::empty().push(c)));
        assert(Seq::<char>::empty().push(c) =~= seq![c]);
    } else {
        let s0 = s.drop_last();
        let x = s.last();
        lemma_front_white_state(c, s0);
        assert((seq![c] + s).drop_last() =~= seq![c] + s0);
        assert((seq![c] + s).last() == x);
        let (d0, u0) = lines_state(s0);
        let (d0b, u0b) = lines_state(seq![c] + s0);
        assert(lines_state(s) == if x == '\n' {
            (d0.push(strip_cr(u0)), Seq::<char>::empty())
        } else {
            (d0, u0.push(x))
        });
        assert(lines_state(seq![c] + s) == if x == '\n' {
            (d0b.push(strip_cr(u0b)), Seq::<char>::empty())
        } else {
            (d0b, u0b.push(x))
        });
        if d0.len() == 0 {
            if x == '\n' {
                lemma_trim_strip_cr(u0);
                lemma_trim_strip_cr(seq![c] + u0);
                lemma_trim_front_white(c, u0);
                let dd = d0.push(strip_cr(u0));
                let dd2 = d0b.push(strip_cr(u0b));
                assert(dd.drop_last() =~= d0);
                assert(dd2.drop_last() =~= d0b);
                assert(relevant(d0) == relevant(d0b)) by {
                    assert(d0 =~= d0b);
                }
            } else {
                assert(seq![c] + u0.push(x) =~= (seq![c] + u0).push(x));
            }
        } else {
            if x == '\n' {
                let dd = d0.push(strip_cr(u0));
                let dd2 = d0b.push(strip_cr(u0b));
                assert(dd.drop_last() =~= d0);
                assert(dd2.drop_last() =~= d0b);
            }
        }
    }
}

proof fn lemma_relevant_drop_first(s: Seq<char>)
    requires
        s.len() > 0,
        is_white(s[0]),
    ensures
        relevant(lines(s)) == relevant(lines(s.drop_first())),
{
    let t = s.drop_first();
    assert(seq![s[0]] + t =~= s);
    if s[0] == '\n' {
        lemma_lines_after_break(Seq::empty(), t);
        assert(Seq::<char>::empty() + seq!['\n'] + t =~= s);
        let e = Seq::<char>::empty() + seq!['\n'];
        assert(e.drop_last() =~= Seq::<char>::empty());
        assert(strip_cr(Seq::<char>::empty()) == Seq::<char>::empty());
        assert(lines_state(Seq::<char>::empty()) == (Seq::<Seq<char>>::empty(), Seq::<char>::empty()));
        assert(lines_state(e) == (Seq::<Seq<char>>::empty().push(Seq::<char>::empty()), Seq::<char>::empty()));
        assert(lines(e) =~= seq![Seq::<char>::empty()]);
        lemma_relevant_concat(lines(e), lines(t));
        assert(seq![Seq::<char>::empty()].drop_last() =~= Seq::<Seq<char>>::empty());
        assert(trim_start(Seq::<char>::empty()) == Seq::<char>::empty());
        assert(trim_end(Seq::<char>::empty()) == Seq::<char>::empty());
        assert(trim(Seq::<char>::empty()) == Seq::<char>::empty());
        assert(relevant(Seq::<Seq<char>>::empty()) == Seq::<Seq<char>>::empty());
        assert(relevant(seq![Seq::<char>::empty()]) == relevant(Seq::<Seq<char>>::empty()));
        assert(relevant(lines(e)) =~= Seq::<Seq<char>>::empty());
        assert(Seq::<Seq<char>>::empty() + relevant(lines(t)) =~= relevant(lines(t)));
        return;
    }
    lemma_front_white_state(s[0], t);
    lemma_relevant_lines(s);
    lemma_relevant_lines(t);
    let (d, u) = lines_state(t);
    if d.len() == 0 {
        lemma_trim_front_white(s[0], u);
        assert(relevant(d) == d);
        assert(relevant(lines_state(s).0) == lines_state(s).0);
    }
}

proof fn lemma_relevant_trim_start(s: Seq<char>)
    ensures
        relevant(lines(trim_start(s))) == relevant(lines(s)),
    decreases s.len(),
{
    if s.len() > 0 && is_white(s[0]) {
        lemma_relevant_drop_first(s);
        lemma_relevant_trim_start(s.drop_first());
    }
}

/// Trimming a text keeps its relevant lines.
pub(crate) proof fn lemma_relevant_trim(s: Seq<char>)
    ensures
        relevant(lines(trim(s))) == relevant(lines(s)),
{
    lemma_relevant_trim_end(trim_start(s));
    lemma_relevant_trim_start(s);
}

/// Text without a line break.
pub open spec fn no_breaks(x: Seq<char>) -> bool {
    !x.contains('\n')
}

proof fn lemma_no_breaks_drop_first(x: Seq<char>)
    requires
        x.len() > 0,
        no_breaks(x),
    ensures
        no_breaks(x.drop_first()),
{
    if x.drop_first().contains('\n') {
        let i = choose|i: int| 0 <= i < x.drop_first().len() && x.drop_first()[i] == '\n';
        assert(x[i + 1] == '\n');
    }
}

proof fn lemma_no_breaks_drop_last(x: Seq<char>)
    requires
        x.len() > 0,
        no_breaks(x),
    ensures
        no_breaks(x.drop_last()),
{
    if x.drop_last().contains('\n') {
        let i = choose|i: int| 0 <= i < x.drop_last().len() && x.drop_last()[i] == '\n';
        assert(x[i] == '\n');
    }
}

proof fn lemma_no_breaks_trim_start(x: Seq<char>)
    requires
        no_breaks(x),
    ensures
        no_breaks(trim_start(x)),
    decreases x.len(),
{
    if x.len() > 0 && is_white(x[0]) {
        lemma_no_breaks_drop_first(x);
        lemma_no_breaks_trim_start(x.drop_first());
    }
}

proof fn lemma_no_breaks_trim_end(x: Seq<char>)
    requires
        no_breaks(x),
    ensures
        no_breaks(trim_end(x)),
    decreases x.len(),
{
    if x.len() > 0 && is_white(x.last()) {
        lemma_no_breaks_drop_last(x);
        lemma_no_breaks_trim_end(x.drop_last());
    }
}

proof fn lemma_no_breaks_trim(x: Seq<char>)
    requires
        no_breaks(x),
    ensures
        no_breaks(trim(x)),
{
    lemma_no_breaks_trim_start(x);
    lemma_no_breaks_trim_end(trim_start(x));
}

/// The lines of a text hold no line break.
proof fn lemma_lines_no_breaks(s: Seq<char>)
    ensures
        forall|k: int| 0 <= k < lines_state(s).0.len() ==> no_breaks(#[trigger] lines_state(s).0[k]),
        no_breaks(lines_state(s).1),
        forall|k: int| 0 <= k < lines(s).len() ==> no_breaks(#[trigger] lines(s)[k]),
    decreases s.len(),
{
    if s.len() > 0 {
        lemma_lines_no_breaks(s.drop_last());
        let (d, u) = lines_state(s.drop_last());
        if s.last() == '\n' {
            if u.len() > 0 && u.last() == '\r' {
                lemma_no_breaks_drop_last(u);
            }
            assert forall|k: int| 0 <= k < d.push(strip_cr(u)).len() implies no_breaks(#[trigger] d.push(strip_cr(u))[k]) by {
                if k < d.len() {
                    assert(d.push(strip_cr(u))[k] == d[k]);
                }
            }
        } else {
            if u.push(s.last()).contains('\n') {
                let i = choose|i: int| 0 <= i < u.push(s.last()).len() && u.push(s.last())[i] == '\n';
                if i < u.len() {
                    assert(u[i] == '\n');
                }
            }
        }
    } else {
        assert(lines_state(s) == (Seq::<Seq<char>>::empty(), Seq::<char>::empty()));
    }
    let (d, u) = lines_state(s);
    if u.len() > 0 {
        assert forall|k: int| 0 <= k < d.push(u).len() implies no_breaks(#[trigger] d.push(u)[k]) by {
            if k < d.len() {
                assert(d.push(u)[k] == d[k]);
            }
        }
    }
}

/// A section name read from a line without breaks, written back in
/// brackets, has no break either.
proof fn lemma_header_no_breaks(raw: Seq<char>)
    requires
        no_breaks(raw),
        section_header(trim(raw)) is Some,
    ensures
        no_breaks(bracketed(section_header(trim(raw)).unwrap())),
{
    let t = trim(raw);
    lemma_no_breaks_trim(raw);
    let inner = t.subrange(1, t.len() - 1);
    if inner.contains('\n') {
        let i = choose|i: int| 0 <= i < inner.len() && inner[i] == '\n';
        assert(t[i + 1] == '\n');
    }
    lemma_no_breaks_trim(inner);
    let name = trim(inner);
    let b = bracketed(name);
    if b.contains('\n') {
        let i = choose|i: int| 0 <= i < b.len() && b[i] == '\n';
        assert(name[i - 1] == '\n');
    }
}

/// The parts of a split configuration hold no line breaks.
proof fn lemma_split_no_breaks(ls: Seq<Seq<char>>, checked: bool)
    requires
        forall|k: int| 0 <= k < ls.len() ==> no_breaks(#[trigger] ls[k]),
    ensures
        split_lines(ls, checked) matches Some(st) ==> {
            &&& forall|k: int| 0 <= k < st.common.len() ==> no_breaks(#[trigger] st.common[k])
            &&& forall|k: int, j: int|
                0 <= k < st.blocks.len() && 0 <= j < st.blocks[k].len() ==> no_breaks(
                    #[trigger] st.blocks[k][j],
                )
        },
    decreases ls.len(),
{
    if ls.len() > 0 {
        let prev = ls.drop_last();
        assert forall|k: int| 0 <= k < prev.len() implies no_breaks(#[trigger] prev[k]) by {
            assert(prev[k] == ls[k]);
        }
        lemma_split_no_breaks(prev, checked);
        let raw = ls.last();
        assert(no_breaks(raw));
        if split_lines(ls, checked) is Some {
            let st0 = split_lines(prev, checked).unwrap();
            let st = split_lines(ls, checked).unwrap();
            if section_header(trim(raw)) is Some {
                lemma_header_no_breaks(raw);
            }
            assert forall|k: int| 0 <= k < st.common.len() implies no_breaks(#[trigger] st.common[k]) by {
                if k < st0.common.len() {
                    assert(st.common[k] == st0.common[k]);
                }
            }
            assert forall|k: int, j: int|
                0 <= k < st.blocks.len() && 0 <= j < st.blocks[k].len() implies no_breaks(
                #[trigger] st.blocks[k][j],
            ) by {
                if k < st0.blocks.len() && j < st0.blocks[k].len() {
                    if st.blocks.len() == st0.blocks.len() && k == st0.blocks.len() - 1 {
                        assert(st.blocks[k][j] == st0.blocks[k][j]);
                    } else {
                        assert(st.blocks[k] == st0.blocks[k]);
                    }
                }
            }
        }
    }
}

/// The relevant lines of lines joined with breaks are the relevant lines
/// themselves.
proof fn lemma_relevant_join(ls: Seq<Seq<char>>)
    requires
        forall|k: int| 0 <= k < ls.len() ==> no_breaks(#[trigger] ls[k]),
    ensures
        relevant(lines(join(ls, seq!['\n']))) == relevant(ls),
    decreases ls.len(),
{
    if ls.len() == 0 {
        assert(lines_state(Seq::<char>::empty()) == (Seq::<Seq<char>>::empty(), Seq::<char>::empty()));
        assert(lines(Seq::<char>::empty()) =~= Seq::<Seq<char>>::empty());
    } else if ls.len() == 1 {
        let x = ls[0];
        lemma_lines_state_of_line(x);
        assert(ls.drop_last() =~= Seq::<Seq<char>>::empty());
        if x.len() > 0 {
            assert(lines(x) =~= seq![x]);
            assert(seq![x] =~= ls);
        } else {
            assert(lines(x) =~= Seq::<Seq<char>>::empty());
            assert(trim_start(x) == x);
            assert(relevant(ls) == relevant(ls.drop_last()));
        }
    } else {
        let prev = ls.drop_last();
        let x = ls.last();
        assert forall|k: int| 0 <= k < prev.len() implies no_breaks(#[trigger] prev[k]) by {
            assert(prev[k] == ls[k]);
        }
        lemma_relevant_join(prev);
        let p = join(prev, seq!['\n']);
        lemma_lines_after_break(p, x);
        lemma_relevant_concat(lines(p + seq!['\n']), lines(x));
        assert((p + seq!['\n']).drop_last() =~= p);
        lemma_relevant_drop_last(p + seq!['\n']);
        lemma_relevant_join(seq![x]);
        assert(seq![x][0] == x);
        assert(join(seq![x], seq!['\n']) == x);
        lemma_relevant_concat(prev, seq![x]);
        assert(prev + seq![x] =~= ls);
    }
}

/// The relevant lines of a tunnel text are those of the common part
/// followed by those of the tunnel's block.
proof fn lemma_relevant_tunnel_text(ct: Seq<char>, bt: Seq<char>)
    ensures
        relevant(lines(tunnel_text(ct, bt))) == relevant(lines(ct)) + relevant(lines(bt)),
{
    if ct.len() == 0 {
        assert(lines_state(ct) == (Seq::<Seq<char>>::empty(), Seq::<char>::empty()));
        assert(lines(ct) =~= Seq::<Seq<char>>::empty());
        assert(Seq::<Seq<char>>::empty() + relevant(lines(bt)) =~= relevant(lines(bt)));
    } else {
        let rest = seq!['\n'] + bt;
        assert(tunnel_text(ct, bt) =~= ct + seq!['\n'] + rest);
        lemma_lines_after_break(ct, rest);
        lemma_relevant_concat(lines(ct + seq!['\n']), lines(rest));
        assert((ct + seq!['\n']).drop_last() =~= ct);
        lemma_relevant_drop_last(ct + seq!['\n']);
        assert(rest.drop_first() =~= bt);
        lemma_relevant_drop_first(rest);
    }
}

/// Each tunnel text that splitting writes — the common part and the
/// tunnel's own section — summarises to that tunnel alone, with the whole
/// configuration's server address and port.
#[verifier::spinoff_prover]
pub proof fn split_texts_summarise_alone(content: Seq<char>, checked: bool, k: int)
    requires
        ini_split(content, checked) is Some,
        0 <= k < tunnel_texts(content, checked).len(),
    ensures
        ini_summary(tunnel_texts(content, checked)[k].1, checked) matches Some(r) && {
            &&& r.tunnel_names == seq![tunnel_texts(content, checked)[k].0]
            &&& r.server_addr == ini_summary(content, checked).unwrap().server_addr
            &&& r.server_port == ini_summary(content, checked).unwrap().server_port
        },
{
    let ls = lines(content);
    let st = split_lines(ls, checked).unwrap();
    lemma_lines_no_breaks(content);
    lemma_split_no_breaks(ls, checked);
    crate::ini::lemma_split_agrees_with_summary(ls, checked);
    crate::ini::lemma_split_lines_names(ls, checked);
    let (common_text, tunnels) = ini_split(content, checked).unwrap();
    assert(tunnels.len() == st.names.len());
    let block = st.blocks[k];
    let ct = block_text(st.common);
    let bt = block_text(block);
    assert(common_text == ct);
    assert(tunnels[k] == (st.names[k], bt));
    let text = tunnel_texts(content, checked)[k].1;
    assert(text == tunnel_text(ct, bt));
    assert(tunnel_texts(content, checked)[k].0 == st.names[k]);
    assert forall|j: int| 0 <= j < block.len() implies no_breaks(#[trigger] block[j]) by {
        assert(no_breaks(st.blocks[k][j]));
    }
    lemma_relevant_trim(join(st.common, seq!['\n']));
    lemma_relevant_join(st.common);
    lemma_relevant_trim(join(block, seq!['\n']));
    lemma_relevant_join(block);
    lemma_relevant_tunnel_text(ct, bt);
    lemma_relevant_concat(st.common, block);
    lemma_summary_relevant(lines(text), checked);
    lemma_summary_relevant(st.common + block, checked);
    split_parts_summarise_alone(content, checked, k);
}

} // verus!
