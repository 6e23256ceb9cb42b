//! Reading a property block back.
//!
//! The text between the braces of a property block is cut at its commas,
//! and each piece at its first colon. For a map whose names hold neither a
//! comma nor a colon, and whose literals hold no comma, this gives back the
//! names and literals of the entries that were written.
use vstd::prelude::*;
use crate::entity::Entry;
use crate::query::{entry_text, props_text, without_null};
use crate::text::join;

verus! {

/// The pieces that the commas cut `text` into; none for the empty text.
pub open spec fn pieces(text: Seq<char>) -> Seq<Seq<char>>
    decreases text.len(),
{
    if text.len() == 0 {
        Seq::empty()
    } else {
        match text.index_of_last(',') {
            None => seq![text],
            Some(at) => {
                proof {
                    text.index_of_last_ensures(',');
                }
                pieces(text.take(at)).push(text.skip(at + 1))
            },
        }
    }
}

/// The name and the literal of one piece: what stands before its first
/// colon, and what stands behind the colon and the space after it.
pub open spec fn read_entry(piece: Seq<char>) -> (Seq<char>, Seq<char>) {
    match piece.index_of_first(':') {
        Some(at) => (piece.take(at), piece.skip(at + 2)),
        None => (piece, Seq::empty()),
    }
}

/// The names and literals that the text of a property block holds.
pub open spec fn read_block(text: Seq<char>) -> Seq<(Seq<char>, Seq<char>)> {
    pieces(text).map_values(|piece: Seq<char>| read_entry(piece))
}

/// The name of an entry and the literal of its value.
pub open spec fn written(entry: Entry) -> (Seq<char>, Seq<char>) {
    (entry.0, entry.1.literal())
}

/// An entry that can be read back: no comma and no colon in its name, no
/// comma in its literal.
pub open spec fn readable(entry: Entry) -> bool {
    &&& !entry.0.contains(',')
    &&& !entry.0.contains(':')
    &&& !entry.1.literal().contains(',')
}

proof fn lemma_pieces_of_join(parts: Seq<Seq<char>>)
    requires
        forall|i: int| 0 <= i < parts.len() ==> (#[trigger] parts[i]).len() > 0,
        forall|i: int| 0 <= i < parts.len() ==> !(#[trigger] parts[i]).contains(','),
    ensures
        pieces(join(parts, ","@)) == parts,
    decreases parts.len(),
{
    reveal_strlit(",");
    let text = join(parts, ","@);
    if parts.len() == 0 {
        assert(parts =~= Seq::empty());
    } else if parts.len() == 1 {
        text.index_of_last_ensures(',');
        assert(parts =~= seq![text]);
    } else {
        let front = parts.drop_last();
        let last = parts.last();
        let head = join(front, ","@);
        assert(text =~= head + seq![','] + last);
        let at = head.len() as int;
        assert(text[at] == ',');
        assert forall|j: int| at < j < text.len() implies text[j] != ',' by {
            assert(text[j] == last[j - at - 1]);
        }
        text.index_of_last_ensures(',');
        assert(text.index_of_last(',') == Some(at));
        assert(text.take(at) =~= head);
        assert(text.skip(at + 1) =~= last);
        assert forall|i: int| 0 <= i < front.len() implies (#[trigger] front[i]).len() > 0
            && !front[i].contains(',') by {
            assert(front[i] == parts[i]);
        }
        lemma_pieces_of_join(front);
        assert(front.push(last) =~= parts);
    }
}

proof fn lemma_read_entry(entry: Entry)
    requires
        readable(entry),
    ensures
        read_entry(entry_text(entry)) == written(entry),
        entry_text(entry).len() > 0,
        !entry_text(entry).contains(','),
{
    reveal_strlit(": ");
    let piece = entry_text(entry);
    let at = entry.0.len() as int;
    let literal = entry.1.literal();
    assert(piece =~= entry.0 + seq![':', ' '] + literal);
    assert(piece[at] == ':');
    assert forall|j: int| 0 <= j < at implies piece[j] != ':' by {
        assert(piece[j] == entry.0[j]);
    }
    piece.index_of_first_ensures(':');
    assert(piece.index_of_first(':') == Some(at));
    assert(piece.take(at) =~= entry.0);
    assert(piece.skip(at + 2) =~= literal);
    assert forall|j: int| 0 <= j < piece.len() implies piece[j] != ',' by {
        if j < at {
            assert(piece[j] == entry.0[j]);
        } else if j >= at + 2 {
            assert(piece[j] == literal[j - at - 2]);
        }
    }
}

/// Written and read back, a property map gives the names and literals of
/// its entries that are not `Null`, in their order, provided that each of
/// them can be read back.
pub proof fn lemma_block_reads_back(entries: Seq<Entry>)
    requires
        forall|i: int|
            0 <= i < entries.len() && !((#[trigger] entries[i]).1 is Null) ==> readable(entries[i]),
    ensures
        read_block(props_text(entries)) == without_null(entries).map_values(
            |entry: Entry| written(entry),
        ),
{
    let kept = without_null(entries);
    let texts = kept.map_values(|entry: Entry| entry_text(entry));
    assert forall|i: int| 0 <= i < kept.len() implies readable(#[trigger] kept[i]) by {
        let pred = |entry: Entry| !(entry.1 is Null);
        entries.lemma_filter_pred(pred, i);
        assert(kept.contains(kept[i]));
        entries.lemma_filter_contains_rev(pred, kept[i]);
        let k = choose|k: int| 0 <= k < entries.len() && entries[k] == kept[i];
        assert(readable(entries[k]));
    }
    assert forall|i: int| 0 <= i < texts.len() implies (#[trigger] texts[i]).len() > 0
        && !texts[i].contains(',') by {
        lemma_read_entry(kept[i]);
    }
    lemma_pieces_of_join(texts);
    assert forall|i: int| 0 <= i < kept.len() implies read_entry(#[trigger] texts[i])
        == written(kept[i]) by {
        lemma_read_entry(kept[i]);
    }
    assert(read_block(props_text(entries)) =~= kept.map_values(|entry: Entry| written(entry)));
}

} // verus!
