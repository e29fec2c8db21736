//! The text-frame display that runs beside playback: an asset holds frames
//! separated by a delimiter; each frame is shown with a placeholder
//! character turned into a space, redrawn in place at a fixed interval.
use vstd::prelude::*;
use vstd::std_specs::iter::IteratorSpec;

verus! {

/// How long each frame stays on screen, in milliseconds.
pub const FRAME_INTERVAL_MS: u64 = 41;

/// The placeholder that a frame shows as a space.
pub open spec fn blank(c: char) -> char {
    if c == '.' {
        ' '
    } else {
        c
    }
}

/// `s` with every placeholder shown as a space.
pub open spec fn blanked(s: Seq<char>) -> Seq<char> {
    s.map_values(|c: char| blank(c))
}

/// The token that separates two frames of an asset.
pub open spec fn delimiter() -> Seq<char> {
    seq!['S', 'P', 'L', 'I', 'T']
}

pub open spec fn starts_with(s: Seq<char>, d: Seq<char>) -> bool {
    d.len() <= s.len() && s.subrange(0, d.len() as int) == d
}

/// `r` with `p` put in front of its first piece.
pub open spec fn extend_first(p: Seq<char>, r: Seq<Seq<char>>) -> Seq<Seq<char>> {
    r.update(0, p + r[0])
}

/// The pieces of `s` between delimiters, read left to right: a delimiter
/// ends the current piece, and pieces may be empty. There is always one
/// piece more than there are delimiters.
pub open spec fn pieces(s: Seq<char>) -> Seq<Seq<char>>
    decreases s.len(),
{
    if s.len() == 0 {
        seq![Seq::<char>::empty()]
    } else if starts_with(s, delimiter()) {
        seq![Seq::<char>::empty()] + pieces(s.skip(5))
    } else {
        extend_first(seq![s[0]], pieces(s.skip(1)))
    }
}

/// The frames of an asset, as they are shown.
pub open spec fn frames_of(text: Seq<char>) -> Seq<Seq<char>> {
    pieces(blanked(text))
}

pub open spec fn views(v: Seq<String>) -> Seq<Seq<char>> {
    v.map_values(|f: String| f@)
}

/// There is always at least one piece.
pub proof fn lemma_pieces_nonempty(s: Seq<char>)
    ensures
        pieces(s).len() >= 1,
    decreases s.len(),
{
    if s.len() > 0 {
        if starts_with(s, delimiter()) {
            lemma_pieces_nonempty(s.skip(5));
        } else {
            lemma_pieces_nonempty(s.skip(1));
        }
    }
}

/// Relies on String::push: appends one character at the end.
#[verifier::external_body]
fn push_char(s: &mut String, c: char)
    ensures
        final(s)@ == old(s)@.push(c),
{
    s.push(c)
}

/// Whether the delimiter starts at position `i` of `cs`.
fn delimiter_at(cs: &Vec<char>, i: usize) -> (r: bool)
    requires
        i <= cs@.len(),
    ensures
        r == starts_with(cs@.skip(i as int), delimiter()),
{
    if cs.len() - i < 5 {
        return false;
    }
    let r = cs[i] == 'S' && cs[i + 1] == 'P' && cs[i + 2] == 'L' && cs[i + 3] == 'I' && cs[i + 4]
        == 'T';
    proof {
        let w = cs@.skip(i as int).subrange(0, 5);
        if r {
            assert(w =~= delimiter());
        } else {
            assert(w != delimiter()) by {
                if w == delimiter() {
                    assert(w[0] == 'S' && w[1] == 'P' && w[2] == 'L' && w[3] == 'I' && w[4] == 'T');
                }
            }
        }
    }
    r
}

/// `text` with every placeholder shown as a space, as characters.
fn blank_chars(text: &str) -> (r: Vec<char>)
    ensures
        r@ == blanked(text@),
{
    let cs = chars_of(text);
    let mut out: Vec<char> = Vec::new();
    let mut i: usize = 0;
    while i < cs.len()
        invariant
            cs@ == text@,
            i <= cs@.len(),
            out@ == blanked(cs@.take(i as int)),
        decreases cs@.len() - i,
    {
        let c = cs[i];
        let b = if c == '.' {
            ' '
        } else {
            c
        };
        out.push(b);
        proof {
            assert(blanked(cs@.take(i as int + 1)) =~= blanked(cs@.take(i as int)).push(b));
        }
        i = i + 1;
    }
    proof {
        assert(cs@.take(cs@.len() as int) =~= cs@);
    }
    out
}

/// Splits `cs` at each delimiter, left to right.
fn split_pieces(cs: &Vec<char>) -> (r: Vec<String>)
    ensures
        views(r@) == pieces(cs@),
{
    let mut done: Vec<String> = Vec::new();
    let mut cur = String::new();
    let mut i: usize = 0;
    proof {
        let p = pieces(cs@);
        lemma_pieces_nonempty(cs@);
        assert(cs@.skip(0) =~= cs@);
        assert(Seq::<char>::empty() + p[0] =~= p[0]);
        assert(extend_first(cur@, p) =~= p);
        assert(views(done@) + p =~= p);
    }
    while i < cs.len()
        invariant
            i <= cs@.len(),
            pieces(cs@) == views(done@) + extend_first(cur@, pieces(cs@.skip(i as int))),
        decreases cs@.len() - i,
    {
        let ghost rest = cs@.skip(i as int);
        if delimiter_at(cs, i) {
            proof {
                assert(rest.skip(5) =~= cs@.skip(i + 5));
                let p = pieces(rest.skip(5));
                lemma_pieces_nonempty(rest.skip(5));
                assert(extend_first(cur@, pieces(rest)) =~= seq![cur@] + p);
                assert(extend_first(Seq::<char>::empty(), p) =~= p) by {
                    assert(Seq::<char>::empty() + p[0] =~= p[0]);
                }
            }
            let ghost before = done@;
            let finished = cur;
            done.push(finished);
            cur = String::new();
            proof {
                assert(views(done@) =~= views(before) + seq![finished@]);
            }
            i = i + 5;
            proof {
                assert(pieces(cs@) =~= views(done@) + extend_first(cur@, pieces(cs@.skip(i as int))));
            }
        } else {
            let ghost old_cur = cur@;
            let c = cs[i];
            push_char(&mut cur, c);
            proof {
                assert(rest.skip(1) =~= cs@.skip(i + 1));
                assert(rest[0] == c);
                let p = pieces(rest.skip(1));
                lemma_pieces_nonempty(rest.skip(1));
                assert(extend_first(old_cur, extend_first(seq![c], p)) =~= extend_first(cur@, p)) by {
                    assert(old_cur + (seq![c] + p[0]) =~= cur@ + p[0]);
                }
            }
            i = i + 1;
        }
    }
    proof {
        assert(cs@.skip(i as int) =~= Seq::<char>::empty());
    }
    let last = cur;
    done.push(last);
    proof {
        assert(views(done@) =~= views(done@.drop_last()) + seq![last@]);
    }
    done
}


/// The characters of `text`, in order.
fn chars_of(text: &str) -> (r: Vec<char>)
    ensures
        r@ == text@,
{
    broadcast use vstd::string::group_string_axioms;

    let n = text.unicode_len();
    let mut it = text.chars();
    let mut out: Vec<char> = Vec::new();
    let mut i: usize = 0;
    while i < n
        invariant
            n == text@.len(),
            i <= n,
            out@.len() == i,
            it.obeys_prophetic_iter_laws(),
            out@ + IteratorSpec::remaining(&it) == text@,
        decreases n - i,
    {
        match it.next() {
            Some(c) => {
                out.push(c);
            },
            None => {
                return out;
            },
        }
        i = i + 1;
    }
    out
}

/// The frames of an asset: placeholders shown as spaces, then split at
/// each delimiter, in order.
pub fn frames(text: &str) -> (r: Vec<String>)
    ensures
        views(r@) == frames_of(text@),
{
    let cs = blank_chars(text);
    split_pieces(&cs)
}

/// What is written to draw `frame` over the previous one: the frame and a
/// carriage return, with no newline.
pub fn redraw(frame: &str) -> (r: String)
    ensures
        r@ == frame@.push('\r'),
{
    let mut r = frame.to_owned();
    push_char(&mut r, '\r');
    r
}

} // verus!
