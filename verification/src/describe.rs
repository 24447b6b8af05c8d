//! The capability every element under test must offer: equality comparison
//! and a textual rendering used in diagnostics. Matchers never special-case a
//! concrete container or element type; they see elements only through this
//! trait.

use vstd::prelude::*;
use vstd::string::{StringExecFns, StrSliceExecFns};

use crate::text::{dec_rep, int_rep, push_dec, push_int};

verus! {

/// An element that matchers can compare and describe.
///
/// `eq_spec` is the element equality relation the matchers are specified
/// against; `rendering` is the text shown for the element in diagnostics.
pub trait Describe: Sized {
    /// The equality relation of the element type.
    spec fn eq_spec(&self, other: &Self) -> bool;

    /// The text this element renders to in diagnostics.
    spec fn rendering(&self) -> Seq<char>;

    /// Decides equality, exactly as `eq_spec` states it.
    fn eq_item(&self, other: &Self) -> (r: bool)
        ensures
            r == self.eq_spec(other),
    ;

    /// Renders the element, exactly as `rendering` states it.
    fn render(&self) -> (r: String)
        ensures
            r@ == self.rendering(),
    ;
}

impl Describe for i64 {
    open spec fn eq_spec(&self, other: &Self) -> bool {
        *self == *other
    }

    open spec fn rendering(&self) -> Seq<char> {
        int_rep(*self as int)
    }

    fn eq_item(&self, other: &Self) -> (r: bool) {
        *self == *other
    }

    fn render(&self) -> (r: String) {
        let mut out = String::new();
        push_int(&mut out, *self);
        out
    }
}

impl Describe for u64 {
    open spec fn eq_spec(&self, other: &Self) -> bool {
        *self == *other
    }

    open spec fn rendering(&self) -> Seq<char> {
        dec_rep(*self as nat)
    }

    fn eq_item(&self, other: &Self) -> (r: bool) {
        *self == *other
    }

    fn render(&self) -> (r: String) {
        let mut out = String::new();
        push_dec(&mut out, *self);
        out
    }
}

impl Describe for u8 {
    open spec fn eq_spec(&self, other: &Self) -> bool {
        *self == *other
    }

    open spec fn rendering(&self) -> Seq<char> {
        dec_rep(*self as nat)
    }

    fn eq_item(&self, other: &Self) -> (r: bool) {
        *self == *other
    }

    fn render(&self) -> (r: String) {
        let mut out = String::new();
        push_dec(&mut out, *self as u64);
        out
    }
}

impl Describe for bool {
    open spec fn eq_spec(&self, other: &Self) -> bool {
        *self == *other
    }

    open spec fn rendering(&self) -> Seq<char> {
        if *self {
            "true"@
        } else {
            "false"@
        }
    }

    fn eq_item(&self, other: &Self) -> (r: bool) {
        *self == *other
    }

    fn render(&self) -> (r: String) {
        proof {
            reveal_strlit("true");
            reveal_strlit("false");
        }
        if *self {
            String::from_str("true")
        } else {
            String::from_str("false")
        }
    }
}

/// How one character appears inside a quoted rendering: quotes and backslashes
/// are escaped with a backslash, the common control characters by their usual
/// short names, and everything else stands as itself.
pub open spec fn escaped_char(c: char) -> Seq<char> {
    if c == '"' {
        seq!['\\', '"']
    } else if c == '\\' {
        seq!['\\', '\\']
    } else if c == '\n' {
        seq!['\\', 'n']
    } else if c == '\r' {
        seq!['\\', 'r']
    } else if c == '\t' {
        seq!['\\', 't']
    } else {
        seq![c]
    }
}

/// The escaped form of a whole character sequence.
pub open spec fn escaped(s: Seq<char>) -> Seq<char>
    decreases s.len(),
{
    if s.len() == 0 {
        Seq::<char>::empty()
    } else {
        escaped(s.drop_last()) + escaped_char(s.last())
    }
}

/// A string as it appears in diagnostics: escaped and wrapped in quotes.
pub open spec fn quoted(s: Seq<char>) -> Seq<char> {
    seq!['"'] + escaped(s) + seq!['"']
}

fn push_escaped_char(out: &mut String, c: char)
    ensures
        final(out)@ == old(out)@ + escaped_char(c),
{
    if c == '"' {
        out.push('\\');
        out.push('"');
    } else if c == '\\' {
        out.push('\\');
        out.push('\\');
    } else if c == '\n' {
        out.push('\\');
        out.push('n');
    } else if c == '\r' {
        out.push('\\');
        out.push('r');
    } else if c == '\t' {
        out.push('\\');
        out.push('t');
    } else {
        out.push(c);
    }
    assert(out@ =~= old(out)@ + escaped_char(c));
}

/// Appends the quoted rendering of `s` to `out`.
pub fn push_quoted(out: &mut String, s: &str)
    ensures
        final(out)@ == old(out)@ + quoted(s@),
{
    out.push('"');
    let len = s.unicode_len();
    let mut i: usize = 0;
    while i < len
        invariant
            0 <= i <= len,
            len == s@.len(),
            out@ == old(out)@ + seq!['"'] + escaped(s@.subrange(0, i as int)),
        decreases len - i,
    {
        let c = s.get_char(i);
        push_escaped_char(out, c);
        proof {
            assert(s@.subrange(0, i as int + 1).drop_last() =~= s@.subrange(0, i as int));
            assert(s@.subrange(0, i as int + 1).last() == s@[i as int]);
            assert(out@ =~= old(out)@ + seq!['"'] + escaped(s@.subrange(0, i as int + 1)));
        }
        i += 1;
    }
    out.push('"');
    proof {
        assert(s@.subrange(0, s@.len() as int) =~= s@);
        assert(out@ =~= old(out)@ + quoted(s@));
    }
}

impl Describe for String {
    open spec fn eq_spec(&self, other: &Self) -> bool {
        self@ == other@
    }

    open spec fn rendering(&self) -> Seq<char> {
        quoted(self@)
    }

    fn eq_item(&self, other: &Self) -> (r: bool) {
        crate::text::str_eq(self.as_str(), other.as_str())
    }

    fn render(&self) -> (r: String) {
        let mut out = String::new();
        push_quoted(&mut out, self.as_str());
        out
    }
}

/// The first `n` items of `items`, rendered and joined with a comma and a
/// space.
pub open spec fn comma_separated<T: Describe>(items: Seq<T>, n: int) -> Seq<char>
    decreases n,
{
    if n <= 0 {
        Seq::<char>::empty()
    } else if n == 1 {
        items[0].rendering()
    } else {
        comma_separated(items, n - 1) + seq![',', ' '] + items[n - 1].rendering()
    }
}

/// A whole sequence rendered as a bracketed, comma-separated list.
pub open spec fn list_rendering<T: Describe>(items: Seq<T>) -> Seq<char> {
    seq!['['] + comma_separated(items, items.len() as int) + seq![']']
}

/// The first `n` items of a sequence rendered as a bracketed list.
pub open spec fn list_rendering_upto<T: Describe>(items: Seq<T>, n: int) -> Seq<char> {
    seq!['['] + comma_separated(items, n) + seq![']']
}

/// A body wrapped in the angle brackets diagnostics use around every value.
pub open spec fn angled(body: Seq<char>) -> Seq<char> {
    seq!['<'] + body + seq!['>']
}

/// Appends `", "` to `out`.
fn push_comma(out: &mut String)
    ensures
        final(out)@ == old(out)@ + seq![',', ' '],
{
    out.push(',');
    out.push(' ');
    assert(out@ =~= old(out)@ + seq![',', ' ']);
}

/// Appends the bracketed list rendering of the first `n` items to `out`.
pub fn push_list_upto<T: Describe>(out: &mut String, items: &Vec<T>, n: usize)
    requires
        n <= items@.len(),
    ensures
        final(out)@ == old(out)@ + list_rendering_upto(items@, n as int),
{
    out.push('[');
    let mut i: usize = 0;
    while i < n
        invariant
            0 <= i <= n <= items@.len(),
            out@ == old(out)@ + seq!['['] + comma_separated(items@, i as int),
        decreases n - i,
    {
        if i > 0 {
            push_comma(out);
        }
        let piece = items[i].render();
        out.append(piece.as_str());
        assert(out@ =~= old(out)@ + seq!['['] + comma_separated(items@, i as int + 1));
        i += 1;
    }
    out.push(']');
    assert(out@ =~= old(out)@ + list_rendering_upto(items@, n as int));
}

/// Appends the bracketed list rendering of `items` to `out`.
pub fn push_list<T: Describe>(out: &mut String, items: &Vec<T>)
    ensures
        final(out)@ == old(out)@ + list_rendering(items@),
{
    out.push('[');
    let mut i: usize = 0;
    while i < items.len()
        invariant
            0 <= i <= items@.len(),
            out@ == old(out)@ + seq!['['] + comma_separated(items@, i as int),
        decreases items@.len() - i,
    {
        if i > 0 {
            push_comma(out);
        }
        let piece = items[i].render();
        out.append(piece.as_str());
        assert(out@ =~= old(out)@ + seq!['['] + comma_separated(items@, i as int + 1));
        i += 1;
    }
    out.push(']');
    assert(out@ =~= old(out)@ + list_rendering(items@));
}

/// The items of `items` standing at the given indices, in index-list order.
pub open spec fn select<T>(items: Seq<T>, ids: Seq<int>) -> Seq<T> {
    Seq::new(ids.len(), |k: int| items[ids[k]])
}

/// Appends the bracketed list rendering of the selected items to `out`: first
/// the items at `front` indices, then the items at `back` indices.
pub fn push_selected_list<T: Describe>(out: &mut String, items: &Vec<T>, front: &Vec<usize>, back: &Vec<usize>)
    requires
        forall|k: int| 0 <= k < front@.len() ==> front@[k] < items@.len(),
        forall|k: int| 0 <= k < back@.len() ==> back@[k] < items@.len(),
    ensures
        final(out)@ == old(out)@ + list_rendering(
            select(items@, front@.map_values(|u: usize| u as int) + back@.map_values(|u: usize| u as int)),
        ),
{
    let ghost all_ids: Seq<int> = front@.map_values(|u: usize| u as int) + back@.map_values(
        |u: usize| u as int,
    );
    let ghost chosen: Seq<T> = select(items@, all_ids);
    out.push('[');
    let mut i: usize = 0;
    while i < front.len()
        invariant
            0 <= i <= front@.len(),
            forall|k: int| 0 <= k < front@.len() ==> front@[k] < items@.len(),
            forall|k: int| 0 <= k < back@.len() ==> back@[k] < items@.len(),
            all_ids == front@.map_values(|u: usize| u as int) + back@.map_values(
                |u: usize| u as int,
            ),
            chosen == select(items@, all_ids),
            out@ == old(out)@ + seq!['['] + comma_separated(chosen, i as int),
        decreases front@.len() - i,
    {
        if i > 0 {
            push_comma(out);
        }
        let piece = items[front[i]].render();
        out.append(piece.as_str());
        proof {
            assert(chosen[i as int] == items@[front@[i as int] as int]);
            assert(out@ =~= old(out)@ + seq!['['] + comma_separated(chosen, i as int + 1));
        }
        i += 1;
    }
    let mut j: usize = 0;
    while j < back.len()
        invariant
            0 <= j <= back@.len(),
            forall|k: int| 0 <= k < front@.len() ==> front@[k] < items@.len(),
            forall|k: int| 0 <= k < back@.len() ==> back@[k] < items@.len(),
            all_ids == front@.map_values(|u: usize| u as int) + back@.map_values(
                |u: usize| u as int,
            ),
            chosen == select(items@, all_ids),
            out@ == old(out)@ + seq!['['] + comma_separated(chosen, front@.len() + j),
        decreases back@.len() - j,
    {
        if j > 0 || front.len() > 0 {
            push_comma(out);
        }
        let piece = items[back[j]].render();
        out.append(piece.as_str());
        proof {
            assert(chosen[front@.len() + j] == items@[back@[j as int] as int]);
            assert(out@ =~= old(out)@ + seq!['['] + comma_separated(
                chosen,
                front@.len() + j + 1,
            ));
        }
        j += 1;
    }
    out.push(']');
    proof {
        assert(chosen.len() == front@.len() + back@.len());
        assert(out@ =~= old(out)@ + list_rendering(chosen));
    }
}

} // verus!
