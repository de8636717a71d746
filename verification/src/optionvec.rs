//! Ordered collections of options, and the text they stand for.

use vstd::prelude::*;

verus! {

/// A value that stands for a piece of a command line.
pub trait Render {
    /// The text that the value stands for.
    spec fn rendered(&self) -> Seq<char>;

    /// Writes the value out as text.
    fn render(&self) -> (text: String)
        ensures
            text@ == self.rendered(),
    ;
}

/// Rendering a value twice gives the same text: whatever two calls of
/// `render` return for one value, the two texts are equal.
pub proof fn lemma_render_deterministic<T: Render>(value: T, first: String, second: String)
    requires
        call_ensures(T::render, (&value,), first),
        call_ensures(T::render, (&value,), second),
    ensures
        first@ == second@,
{
}

/// The pieces joined by single spaces, in their order: nothing before the
/// first piece, nothing after the last, and the empty text for no piece.
pub open spec fn spaced(pieces: Seq<Seq<char>>) -> Seq<char>
    decreases pieces.len(),
{
    if pieces.len() == 0 {
        Seq::empty()
    } else if pieces.len() == 1 {
        pieces[0]
    } else {
        pieces[0] + seq![' '] + spaced(pieces.skip(1))
    }
}

/// A further piece at the end of a joined text comes after one space.
pub proof fn lemma_spaced_push(pieces: Seq<Seq<char>>, piece: Seq<char>)
    ensures
        spaced(pieces.push(piece)) == if pieces.len() == 0 {
            piece
        } else {
            spaced(pieces) + seq![' '] + piece
        },
    decreases pieces.len(),
{
    let longer = pieces.push(piece);
    if pieces.len() == 0 {
    } else if pieces.len() == 1 {
        assert(spaced(longer.skip(1)) == piece);
    } else {
        lemma_spaced_push(pieces.skip(1), piece);
        assert(longer.skip(1) =~= pieces.skip(1).push(piece));
    }
}

/// Two pieces are joined by one space.
pub proof fn lemma_spaced_pair(first: Seq<char>, second: Seq<char>)
    ensures
        spaced(seq![first, second]) == first + seq![' '] + second,
{
    lemma_spaced_push(seq![first], second);
    assert(seq![first, second] =~= seq![first].push(second));
}

/// Three pieces are joined by two spaces, one between each two neighbours,
/// and keep their order.
pub proof fn lemma_spaced_triple(first: Seq<char>, second: Seq<char>, third: Seq<char>)
    ensures
        spaced(seq![first, second, third]) == first + seq![' '] + second + seq![' '] + third,
{
    lemma_spaced_pair(first, second);
    lemma_spaced_push(seq![first, second], third);
    assert(seq![first, second, third] =~= seq![first, second].push(third));
}

/// Where the piece at index `k` begins in the joined text: after the pieces
/// before it and one space for each of them.
pub open spec fn start(pieces: Seq<Seq<char>>, k: int) -> int
    decreases k,
{
    if k <= 0 {
        0
    } else {
        start(pieces, k - 1) + pieces[k - 1].len() + 1
    }
}

/// Where a piece begins depends on the pieces before it alone.
proof fn lemma_start_prefix(pieces: Seq<Seq<char>>, others: Seq<Seq<char>>, k: int)
    requires
        0 <= k <= pieces.len(),
        k <= others.len(),
        forall|i: int| 0 <= i < k ==> pieces[i] == others[i],
    ensures
        start(pieces, k) == start(others, k),
    decreases k,
{
    if k > 0 {
        lemma_start_prefix(pieces, others, k - 1);
    }
}

/// The joined text holds every piece, in order, and one space between each
/// two neighbours, and nothing else: each piece stands where it begins, a
/// space stands before each piece but the first, and the text ends with the
/// last piece.
pub proof fn lemma_spaced_layout(pieces: Seq<Seq<char>>, k: int)
    requires
        0 <= k < pieces.len(),
    ensures
        spaced(pieces).len() == start(pieces, pieces.len() as int) - 1,
        0 <= start(pieces, k),
        start(pieces, k) + pieces[k].len() <= spaced(pieces).len(),
        spaced(pieces).subrange(start(pieces, k), start(pieces, k) + pieces[k].len())
            == pieces[k],
        k > 0 ==> spaced(pieces)[start(pieces, k) - 1] == ' ',
    decreases pieces.len(),
{
    let n = pieces.len() as int;
    if n > 1 {
        let front = pieces.drop_last();
        lemma_spaced_push(front, pieces.last());
        assert(pieces =~= front.push(pieces.last()));
        lemma_spaced_layout(front, 0);
        lemma_start_prefix(front, pieces, n - 1);
        if k < n - 1 {
            lemma_spaced_layout(front, k);
            lemma_start_prefix(front, pieces, k);
            if k > 0 {
                lemma_spaced_layout(front, k - 1);
                lemma_start_prefix(front, pieces, k - 1);
            }
        }
    } else {
        assert(start(pieces, 1) == start(pieces, 0) + pieces[0].len() + 1);
    }
}

/// A `Vec` of options of one family, in the order in which they are written
/// on the command line.
#[derive(Debug)]
pub struct OptionVec<T: Render>(pub Vec<T>);

impl<T: Render> View for OptionVec<T> {
    type V = Seq<T>;

    open spec fn view(&self) -> Seq<T> {
        self.0@
    }
}

impl<T: Render> OptionVec<T> {
    /// The text of each option, in order.
    pub open spec fn pieces(&self) -> Seq<Seq<char>> {
        self@.map_values(|option: T| option.rendered())
    }

    /// A collection without options.
    pub fn new() -> (options: OptionVec<T>)
        ensures
            options@ == Seq::<T>::empty(),
    {
        OptionVec(Vec::new())
    }
}

impl<T: Render> Default for OptionVec<T> {
    fn default() -> (options: OptionVec<T>)
        ensures
            options@ == Seq::<T>::empty(),
    {
        OptionVec(Vec::new())
    }
}

impl<T: Render> Render for OptionVec<T> {
    open spec fn rendered(&self) -> Seq<char> {
        spaced(self.pieces())
    }

    fn render(&self) -> (text: String) {
        let mut text = String::new();
        let mut i: usize = 0;
        while i < self.0.len()
            invariant
                i <= self.0.len(),
                text@ == spaced(self.pieces().take(i as int)),
            decreases self.0.len() - i,
        {
            let piece = self.0[i].render();
            proof {
                let before = self.pieces().take(i as int);
                lemma_spaced_push(before, piece@);
                assert(self.pieces().take(i + 1) =~= before.push(piece@));
                reveal_strlit(" ");
            }
            if i > 0 {
                text.append(" ");
            }
            text.append(piece.as_str());
            i += 1;
        }
        proof {
            assert(self.pieces().take(i as int) =~= self.pieces());
            assert(self.rendered() == spaced(self.pieces()));
        }
        text
    }
}

/// A collection without options renders to the empty text.
pub proof fn lemma_render_none<T: Render>(options: OptionVec<T>)
    requires
        options@.len() == 0,
    ensures
        options.rendered() == Seq::<char>::empty(),
{
}

/// A collection of one option renders to that option's text, with no space
/// before or after it.
pub proof fn lemma_render_one<T: Render>(options: OptionVec<T>)
    requires
        options@.len() == 1,
    ensures
        options.rendered() == options@[0].rendered(),
{
}

/// A collection of three options renders to the three texts in the order of
/// the options, with one space between each two neighbours and none at
/// either end.
pub proof fn lemma_render_three<T: Render>(options: OptionVec<T>)
    requires
        options@.len() == 3,
    ensures
        options.rendered() == options@[0].rendered() + seq![' '] + options@[1].rendered()
            + seq![' '] + options@[2].rendered(),
{
    let pieces = options.pieces();
    assert(pieces =~= seq![pieces[0], pieces[1], pieces[2]]);
    lemma_spaced_triple(pieces[0], pieces[1], pieces[2]);
}

/// One more option at the end of a collection that is not empty adds one
/// space and the option's text to the end of the collection's text.
pub proof fn lemma_render_more<T: Render>(options: OptionVec<T>, option: T, longer: OptionVec<T>)
    requires
        options@.len() > 0,
        longer@ == options@.push(option),
    ensures
        longer.rendered() == options.rendered() + seq![' '] + option.rendered(),
{
    lemma_spaced_push(options.pieces(), option.rendered());
    assert(longer.pieces() =~= options.pieces().push(option.rendered()));
}

/// The text of a collection holds the text of each option at its place: the
/// option at index `k` begins after the texts of the options before it and
/// one space for each of them, and a space stands just before it unless it
/// is the first.
pub proof fn lemma_render_layout<T: Render>(options: OptionVec<T>, k: int)
    requires
        0 <= k < options@.len(),
    ensures
        0 <= start(options.pieces(), k),
        start(options.pieces(), k) + options@[k].rendered().len() <= options.rendered().len(),
        options.rendered().subrange(
            start(options.pieces(), k),
            start(options.pieces(), k) + options@[k].rendered().len(),
        ) == options@[k].rendered(),
        k > 0 ==> options.rendered()[start(options.pieces(), k) - 1] == ' ',
        options.rendered().len() == start(options.pieces(), options@.len() as int) - 1,
{
    lemma_spaced_layout(options.pieces(), k);
}

/// The text of a collection that is not empty begins with the text of its
/// first option and ends with the text of its last: no separator stands
/// before the one or after the other.
pub proof fn lemma_render_ends<T: Render>(options: OptionVec<T>)
    requires
        options@.len() > 0,
    ensures
        options@.first().rendered().is_prefix_of(options.rendered()),
        options@.last().rendered().is_suffix_of(options.rendered()),
{
    let pieces = options.pieces();
    if pieces.len() > 1 {
        lemma_spaced_push(pieces.drop_last(), pieces.last());
        assert(pieces =~= pieces.drop_last().push(pieces.last()));
    }
}

} // verus!
