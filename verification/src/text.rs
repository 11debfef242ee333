//! Separator-delimited text: cutting a line into fields and gluing fields
//! back together, over sequences of characters.

use vstd::prelude::*;
use vstd::string::StrSliceExecFns;

verus! {

/// The fields of `s` when it is cut at every occurrence of `sep`.
///
/// A text without any separator is one field; `n` separators always give
/// `n + 1` fields, some of which may be empty.
pub open spec fn split(s: Seq<char>, sep: char) -> Seq<Seq<char>>
    decreases s.len(),
{
    if s.len() == 0 {
        seq![Seq::<char>::empty()]
    } else {
        let before = split(s.drop_last(), sep);
        if s.last() == sep {
            before.push(Seq::<char>::empty())
        } else {
            before.update(before.len() - 1, before.last().push(s.last()))
        }
    }
}

/// `fields` glued together with one `sep` between neighbours.
pub open spec fn join(fields: Seq<Seq<char>>, sep: char) -> Seq<char>
    decreases fields.len(),
{
    if fields.len() == 0 {
        Seq::<char>::empty()
    } else if fields.len() == 1 {
        fields[0]
    } else {
        join(fields.drop_last(), sep).push(sep) + fields.last()
    }
}

/// The character sequences that the string slices in `parts` stand for.
pub open spec fn texts(parts: Seq<&str>) -> Seq<Seq<char>> {
    Seq::new(parts.len(), |i: int| parts[i]@)
}

/// Cutting always yields at least one field.
pub proof fn lemma_split_nonempty(s: Seq<char>, sep: char)
    ensures
        split(s, sep).len() >= 1,
    decreases s.len(),
{
    if s.len() > 0 {
        lemma_split_nonempty(s.drop_last(), sep);
    }
}

/// A text that holds no separator is a single field.
pub proof fn lemma_split_without_separator(s: Seq<char>, sep: char)
    requires
        !s.contains(sep),
    ensures
        split(s, sep) == seq![s],
    decreases s.len(),
{
    if s.len() == 0 {
        assert(s =~= Seq::<char>::empty());
    } else {
        let init = s.drop_last();
        assert(!init.contains(sep)) by {
            if init.contains(sep) {
                let i = choose|i: int| 0 <= i < init.len() && init[i] == sep;
                assert(s[i] == sep);
            }
        }
        lemma_split_without_separator(init, sep);
        assert(s.last() != sep) by {
            assert(s[s.len() - 1] == s.last());
        }
        assert(init.push(s.last()) =~= s);
        assert(split(s, sep) =~= seq![s]);
    }
}

/// Cutting distributes over a separator: the fields of `a`, `sep`, `b` in a
/// row are the fields of `a` followed by the fields of `b`.
pub proof fn lemma_split_concat(a: Seq<char>, b: Seq<char>, sep: char)
    ensures
        split(a.push(sep) + b, sep) == split(a, sep) + split(b, sep),
    decreases b.len(),
{
    let whole = a.push(sep) + b;
    lemma_split_nonempty(a, sep);
    if b.len() == 0 {
        assert(whole =~= a.push(sep));
        assert(whole.drop_last() =~= a);
        assert(split(whole, sep) =~= split(a, sep) + split(b, sep));
    } else {
        let init = b.drop_last();
        lemma_split_concat(a, init, sep);
        lemma_split_nonempty(init, sep);
        assert(whole.drop_last() =~= a.push(sep) + init);
        assert(whole.last() == b.last());
        assert(split(whole, sep) =~= split(a, sep) + split(b, sep));
    }
}

/// Whether no field of `fields` holds the character `c`.
pub open spec fn fields_avoid(fields: Seq<Seq<char>>, c: char) -> bool {
    forall|i: int| 0 <= i < fields.len() ==> !(#[trigger] fields[i]).contains(c)
}

/// Gluing and cutting are inverse: when no field holds the separator,
/// cutting the glued text gives the fields back.
pub proof fn lemma_split_join(fields: Seq<Seq<char>>, sep: char)
    requires
        fields.len() >= 1,
        fields_avoid(fields, sep),
    ensures
        split(join(fields, sep), sep) == fields,
    decreases fields.len(),
{
    if fields.len() == 1 {
        lemma_split_without_separator(fields[0], sep);
        assert(seq![fields[0]] =~= fields);
    } else {
        let init = fields.drop_last();
        assert(fields_avoid(init, sep)) by {
            assert forall|i: int| 0 <= i < init.len() implies !(#[trigger] init[i]).contains(
                sep,
            ) by {
                assert(init[i] == fields[i]);
            }
        }
        lemma_split_join(init, sep);
        lemma_split_concat(join(init, sep), fields.last(), sep);
        lemma_split_without_separator(fields.last(), sep);
        assert(init + seq![fields.last()] =~= fields);
    }
}

/// A character other than the separator occurs in the glued text only if
/// it occurs in one of the fields.
pub proof fn lemma_join_avoids(fields: Seq<Seq<char>>, sep: char, c: char)
    requires
        c != sep,
        fields_avoid(fields, c),
    ensures
        !join(fields, sep).contains(c),
    decreases fields.len(),
{
    if fields.len() == 0 {
    } else if fields.len() == 1 {
    } else {
        let init = fields.drop_last();
        assert(fields_avoid(init, c)) by {
            assert forall|i: int| 0 <= i < init.len() implies !(#[trigger] init[i]).contains(
                c,
            ) by {
                assert(init[i] == fields[i]);
            }
        }
        lemma_join_avoids(init, sep, c);
        let left = join(init, sep).push(sep);
        let whole = left + fields.last();
        if whole.contains(c) {
            let i = choose|i: int| 0 <= i < whole.len() && whole[i] == c;
            if i < left.len() - 1 {
                assert(join(init, sep)[i] == c);
            } else if i >= left.len() {
                assert(fields.last()[i - left.len()] == c);
            }
        }
    }
}

/// Cuts `text` at every `sep` and returns the pieces in order.
pub fn split_fields<'a>(text: &'a str, sep: char) -> (fields: Vec<&'a str>)
    ensures
        texts(fields@) == split(text@, sep),
        fields@.len() >= 1,
{
    let total: usize = text.unicode_len();
    let mut fields: Vec<&'a str> = Vec::new();
    let mut start: usize = 0;
    let mut pos: usize = 0;
    proof {
        assert(text@.take(0) =~= Seq::<char>::empty());
        assert(text@.subrange(0, 0) =~= Seq::<char>::empty());
        assert(texts(fields@).push(text@.subrange(0, 0)) =~= split(text@.take(0), sep));
    }
    for c in it: text.chars()
        invariant
            it.seq() == text@,
            pos == it.index(),
            total == text@.len(),
            start <= pos <= total,
            texts(fields@).push(text@.subrange(start as int, pos as int)) == split(
                text@.take(pos as int),
                sep,
            ),
    {
        let ghost before = split(text@.take(pos as int), sep);
        proof {
            assert(text@.take(pos + 1).drop_last() =~= text@.take(pos as int));
            assert(text@.take(pos + 1).last() == c);
        }
        if c == sep {
            let piece: &'a str = text.substring_char(start, pos);
            proof {
                assert(texts(fields@.push(piece)) =~= texts(fields@).push(piece@));
                assert(text@.subrange(pos + 1, pos + 1) =~= Seq::<char>::empty());
            }
            fields.push(piece);
            start = pos + 1;
        } else {
            proof {
                assert(text@.subrange(start as int, pos + 1) =~= text@.subrange(
                    start as int,
                    pos as int,
                ).push(c));
                assert(texts(fields@).push(text@.subrange(start as int, pos + 1)) =~= before.update(
                    before.len() - 1,
                    before.last().push(c),
                ));
            }
        }
        pos = pos + 1;
    }
    let piece: &'a str = text.substring_char(start, total);
    proof {
        assert(text@.take(total as int) =~= text@);
        assert(texts(fields@.push(piece)) =~= texts(fields@).push(piece@));
    }
    fields.push(piece);
    fields
}

} // verus!
