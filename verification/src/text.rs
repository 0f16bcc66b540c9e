//! Lines of text that the panel puts together from a bookmark's tags.

use vstd::prelude::*;

verus! {

/// The parts one after another, with `separator` between neighbours.
pub open spec fn joined(parts: Seq<Seq<char>>, separator: Seq<char>) -> Seq<char>
    decreases parts.len(),
{
    if parts.len() == 0 {
        Seq::empty()
    } else if parts.len() == 1 {
        parts[0]
    } else {
        joined(parts.drop_last(), separator) + separator + parts.last()
    }
}

/// Each tag with `#` in front of it.
pub open spec fn hash_tags(tags: Seq<Seq<char>>) -> Seq<Seq<char>> {
    Seq::new(tags.len(), |i: int| seq!['#'] + tags[i])
}

/// The line a card shows for a bookmark's tags: `#` and the tag's name for
/// each, one space between neighbours, in the order of the list.
pub open spec fn tag_line(tags: Seq<Seq<char>>) -> Seq<char> {
    joined(hash_tags(tags), seq![' '])
}

/// The line a form shows for a bookmark's tags: the names with one space
/// between neighbours.
pub open spec fn tag_entry(tags: Seq<Seq<char>>) -> Seq<char> {
    joined(tags, seq![' '])
}

/// Where the tag at `index` begins in the tag line: every tag before it
/// takes up its name, the `#` before it and the space after it.
pub open spec fn tag_start(tags: Seq<Seq<char>>, index: int) -> int
    decreases index,
{
    if index <= 0 {
        0
    } else {
        tag_start(tags, index - 1) + tags[index - 1].len() + 2
    }
}

proof fn lemma_tag_start_of_prefix(tags: Seq<Seq<char>>, index: int)
    requires
        0 <= index < tags.len(),
    ensures
        tag_start(tags.drop_last(), index) == tag_start(tags, index),
    decreases index,
{
    if index > 0 {
        lemma_tag_start_of_prefix(tags, index - 1);
    }
}

proof fn lemma_tag_line_len(tags: Seq<Seq<char>>)
    requires
        tags.len() > 0,
    ensures
        tag_line(tags).len() == tag_start(tags, tags.len() as int) - 1,
    decreases tags.len(),
{
    let last = tags.len() - 1;
    if tags.len() == 1 {
        assert(tag_start(tags, 0) == 0);
    } else {
        lemma_tag_line_len(tags.drop_last());
        lemma_tag_start_of_prefix(tags, last);
        assert(hash_tags(tags).drop_last() =~= hash_tags(tags.drop_last()));
    }
}

/// A card's tag line lists each tag, `#` before its name, in the order of
/// the list and with one space between neighbours: the tag at `index` begins
/// at `tag_start`, a space follows it unless it is the last, and the line
/// ends with the last tag.
pub proof fn law_tag_line_lists_each_tag(tags: Seq<Seq<char>>, index: int)
    requires
        0 <= index < tags.len(),
    ensures
        0 <= tag_start(tags, index),
        tag_start(tags, index) + 1 + tags[index].len() <= tag_line(tags).len(),
        tag_line(tags)[tag_start(tags, index)] == '#',
        tag_line(tags).subrange(
            tag_start(tags, index) + 1,
            tag_start(tags, index) + 1 + tags[index].len(),
        ) == tags[index],
        index + 1 < tags.len() ==> tag_line(tags)[tag_start(tags, index) + 1 + tags[index].len()]
            == ' ',
        index + 1 == tags.len() ==> tag_line(tags).len() == tag_start(tags, index) + 1
            + tags[index].len(),
    decreases tags.len(),
{
    if tags.len() > 1 {
        let last = tags.len() - 1;
        assert(hash_tags(tags).drop_last() =~= hash_tags(tags.drop_last()));
        lemma_tag_line_len(tags.drop_last());
        lemma_tag_start_of_prefix(tags, last);
        if index < last {
            law_tag_line_lists_each_tag(tags.drop_last(), index);
            lemma_tag_start_of_prefix(tags, index);
        }
    }
}

/// A bookmark without tags has an empty tag line.
pub proof fn law_tag_line_of_no_tags()
    ensures
        tag_line(Seq::empty()) == Seq::<char>::empty(),
{
}

/// Joins `parts` with `separator` between neighbours.
pub fn join(parts: &Vec<String>, separator: &str) -> (line: String)
    ensures
        line@ == joined(parts.deep_view(), separator@),
{
    let mut line = String::new();
    let mut i: usize = 0;
    while i < parts.len()
        invariant
            i <= parts.len(),
            line@ == joined(parts.deep_view().take(i as int), separator@),
        decreases parts.len() - i,
    {
        if i > 0 {
            line.append(separator);
        }
        line.append(parts[i].as_str());
        proof {
            let done = parts.deep_view().take(i as int + 1);
            assert(done.drop_last() =~= parts.deep_view().take(i as int));
        }
        i += 1;
    }
    assert(parts.deep_view().take(parts.len() as int) =~= parts.deep_view());
    line
}

/// `tag` with `#` in front of it.
pub fn hash_tag(tag: &str) -> (text: String)
    ensures
        text@ == seq!['#'] + tag@,
{
    let mut text = String::new();
    proof {
        reveal_strlit("#");
    }
    text.append("#");
    text.append(tag);
    text
}

/// The tag line of a card for `tags`.
pub fn hash_tag_line(tags: &Vec<String>) -> (line: String)
    ensures
        line@ == tag_line(tags.deep_view()),
{
    let mut marked: Vec<String> = Vec::new();
    let mut i: usize = 0;
    while i < tags.len()
        invariant
            i <= tags.len(),
            marked.len() == i,
            forall|k: int| 0 <= k < i ==> (#[trigger] marked[k])@ == seq!['#'] + tags[k]@,
        decreases tags.len() - i,
    {
        marked.push(hash_tag(tags[i].as_str()));
        i += 1;
    }
    assert(marked.deep_view() =~= hash_tags(tags.deep_view()));
    proof {
        reveal_strlit(" ");
    }
    assert(" "@ =~= seq![' ']);
    join(&marked, " ")
}

/// The tag line of a form for `tags`.
pub fn tag_entry_line(tags: &Vec<String>) -> (line: String)
    ensures
        line@ == tag_entry(tags.deep_view()),
{
    proof {
        reveal_strlit(" ");
    }
    assert(" "@ =~= seq![' ']);
    join(tags, " ")
}

} // verus!
