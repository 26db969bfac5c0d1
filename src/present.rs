//! Laying out rendered posts for the terminal.
use vstd::prelude::*;
use crate::handle::Handle;

verus! {

/// The width of the field in which the id heads each post.
pub const HEADER_WIDTH: usize = 15;

/// The column at which post text is wrapped.
pub const WRAP_WIDTH: usize = 80;

/// The lines that textwrap makes of a text at a given width.
pub uninterp spec fn wrapped_lines(text: Seq<char>, width: nat) -> Seq<Seq<char>>;

/// Relies on `textwrap::wrap` with `textwrap::Options::new(width)`: the lines of
/// the wrapped text, which depend on the text and the width alone.
#[verifier::external_body]
fn wrap_text(text: &str, width: usize) -> (r: Vec<String>)
    ensures
        r@.map_values(|s: String| s@) == wrapped_lines(text@, width as nat),
{
    let options = textwrap::Options::new(width);
    textwrap::wrap(text, &options).into_iter().map(|line| line.into_owned()).collect()
}

/// `n` spaces.
pub open spec fn spaces(n: nat) -> Seq<char> {
    Seq::new(n, |_i: int| ' ')
}

/// `s` right-aligned in a field of `width` characters.
pub open spec fn right_align(s: Seq<char>, width: nat) -> Seq<char> {
    if s.len() >= width {
        s
    } else {
        spaces((width - s.len()) as nat) + s
    }
}

/// A line of post text, indented by five spaces.
pub open spec fn indented(line: Seq<char>) -> Seq<char> {
    spaces(5) + line
}

/// The block of one post: the id as a header, the indented lines, a blank line.
pub open spec fn block_of(id: Seq<char>, lines: Seq<Seq<char>>) -> Seq<Seq<char>> {
    seq![right_align(id, HEADER_WIDTH as nat)] + lines.map_values(|l: Seq<char>| indented(l))
        + seq![Seq::<char>::empty()]
}

/// The blocks of all posts, each wrapped at `WRAP_WIDTH`, in order.
pub open spec fn rendered_lines(id: Seq<char>, posts: Seq<Seq<char>>) -> Seq<Seq<char>>
    decreases posts.len(),
{
    if posts.len() == 0 {
        Seq::empty()
    } else {
        rendered_lines(id, posts.drop_last()) + block_of(
            id,
            wrapped_lines(posts.last(), WRAP_WIDTH as nat),
        )
    }
}

/// `s` right-aligned in a field of `width` characters.
pub fn align_right(s: &str, width: usize) -> (r: String)
    ensures
        r@ == right_align(s@, width as nat),
{
    let n = s.unicode_len();
    let mut out = String::new();
    if n < width {
        let mut k: usize = 0;
        while k < width - n
            invariant
                n < width,
                k <= width - n,
                out@ =~= spaces(k as nat),
            decreases width - n - k,
        {
            proof {
                reveal_strlit(" ");
            }
            out.append(" ");
            k = k + 1;
        }
    }
    out.append(s);
    out
}

/// The lines of one post's block, from the lines its text was wrapped into.
pub fn format_block(id: &str, wrapped: &Vec<String>) -> (r: Vec<String>)
    ensures
        r@.map_values(|s: String| s@) == block_of(id@, wrapped@.map_values(|s: String| s@)),
{
    let mut lines: Vec<String> = Vec::new();
    lines.push(align_right(id, HEADER_WIDTH));
    let mut i: usize = 0;
    while i < wrapped.len()
        invariant
            0 <= i <= wrapped@.len(),
            lines@.len() == i + 1,
            lines@[0]@ == right_align(id@, HEADER_WIDTH as nat),
            forall|j: int| 0 <= j < i ==> #[trigger] lines@[j + 1]@ == indented(wrapped@[j]@),
        decreases wrapped@.len() - i,
    {
        let mut line = String::from_str("     ");
        line.append(wrapped[i].as_str());
        proof {
            reveal_strlit("     ");
            assert(line@ =~= indented(wrapped@[i as int]@));
        }
        lines.push(line);
        i = i + 1;
    }
    lines.push(String::new());
    proof {
        let mid = wrapped@.map_values(|s: String| s@).map_values(|l: Seq<char>| indented(l));
        assert forall|j: int| 0 <= j < mid.len() implies mid[j] == indented(wrapped@[j]@) by {}
        let b = block_of(id@, wrapped@.map_values(|s: String| s@));
        assert(b.len() == lines@.len());
        assert forall|j: int| 0 <= j < b.len() implies b[j] == lines@.map_values(
            |s: String| s@,
        )[j] by {
            if 1 <= j <= mid.len() {
                assert(lines@[(j - 1) + 1]@ == indented(wrapped@[j - 1]@));
            }
        }
        assert(lines@.map_values(|s: String| s@) =~= block_of(
            id@,
            wrapped@.map_values(|s: String| s@),
        ));
    }
    lines
}

/// The output lines for the posts of `handle`: for each post, the id
/// right-aligned as a header, its text wrapped at `WRAP_WIDTH` and indented,
/// and a blank line.
pub fn render(handle: &Handle, posts: &Vec<String>) -> (r: Vec<String>)
    ensures
        r@.map_values(|s: String| s@) == rendered_lines(
            handle.id@,
            posts@.map_values(|s: String| s@),
        ),
{
    let mut lines: Vec<String> = Vec::new();
    let mut i: usize = 0;
    while i < posts.len()
        invariant
            0 <= i <= posts@.len(),
            lines@.map_values(|s: String| s@) == rendered_lines(
                handle.id@,
                posts@.subrange(0, i as int).map_values(|s: String| s@),
            ),
        decreases posts@.len() - i,
    {
        let wrapped = wrap_text(posts[i].as_str(), WRAP_WIDTH);
        let mut block = format_block(handle.id.as_str(), &wrapped);
        let ghost before = lines@;
        lines.append(&mut block);
        proof {
            let p = posts@.subrange(0, i + 1).map_values(|s: String| s@);
            assert(p.drop_last() =~= posts@.subrange(0, i as int).map_values(|s: String| s@));
            assert(lines@.map_values(|s: String| s@) =~= before.map_values(|s: String| s@)
                + block_of(handle.id@, wrapped_lines(posts@[i as int]@, WRAP_WIDTH as nat)));
        }
        i = i + 1;
    }
    proof {
        assert(posts@.subrange(0, i as int) =~= posts@);
    }
    lines
}

} // verus!
