//! Directory tags that a conversion sets, carries over or removes.

use vstd::prelude::*;

verus! {

/// `Orientation` of the image.
pub const ORIENTATION: u16 = 0x0112;

/// `Software` that wrote the file.
pub const SOFTWARE: u16 = 0x0131;

/// `ModifyDate` of the file.
pub const MODIFY_DATE: u16 = 0x0132;

/// `Artist` who took the picture.
pub const ARTIST: u16 = 0x013b;

/// `MakerNote` block of the EXIF directory.
pub const MAKER_NOTES: u16 = 0x927c;

/// `MakerNoteSafety`: whether the maker note survives a move within the file.
pub const MAKER_NOTE_SAFETY: u16 = 0xc635;

/// CinemaDNG `TimeCodes`.
pub const TIME_CODES: u16 = 0xc763;

/// CinemaDNG `FrameRate`.
pub const FRAME_RATE: u16 = 0xc764;

/// CinemaDNG `TStop`.
pub const T_STOP: u16 = 0xc772;

/// The value of a tag, as far as the conversion reads or writes it.
#[derive(Debug)]
pub enum TagValue {
    /// 16-bit unsigned numbers.
    Short(Vec<u16>),
    /// Text.
    Ascii(String),
    /// A value of any other type.
    Other,
}

/// What a [`TagValue`] stands for.
pub enum TagValueView {
    Short(Seq<u16>),
    Ascii(Seq<char>),
    Other,
}

impl View for TagValue {
    type V = TagValueView;

    open spec fn view(&self) -> TagValueView {
        match self {
            TagValue::Short(v) => TagValueView::Short(v@),
            TagValue::Ascii(s) => TagValueView::Ascii(s@),
            TagValue::Other => TagValueView::Other,
        }
    }
}

/// The tags of the input's own root directory that are copied: those of CinemaDNG.
pub open spec fn is_carried_tag(tag: u16) -> bool {
    tag == TIME_CODES || tag == FRAME_RATE || tag == T_STOP
}

/// The carried tags among `tags`, in their order.
pub open spec fn carried_tags(tags: Seq<u16>) -> Seq<u16> {
    tags.filter(|tag: u16| is_carried_tag(tag))
}

/// Pick the tags of a root directory that are copied into the DNG.
pub fn select_carried_tags(tags: &Vec<u16>) -> (r: Vec<u16>)
    ensures
        r@ == carried_tags(tags@),
{
    let ghost carried = |tag: u16| is_carried_tag(tag);
    let mut out: Vec<u16> = Vec::new();
    let mut i: usize = 0;
    proof {
        reveal(Seq::filter);
    }
    assert(out@ =~= tags@.take(0).filter(carried));
    while i < tags.len()
        invariant
            i <= tags@.len(),
            carried == |tag: u16| is_carried_tag(tag),
            out@ == tags@.take(i as int).filter(carried),
        decreases tags@.len() - i,
    {
        proof {
            reveal(Seq::filter);
            assert(tags@.take(i + 1).drop_last() =~= tags@.take(i as int));
            assert(tags@.take(i + 1).last() == tags@[i as int]);
        }
        let tag: u16 = tags[i];
        if tag == TIME_CODES || tag == FRAME_RATE || tag == T_STOP {
            out.push(tag);
        }
        i = i + 1;
    }
    assert(tags@.take(i as int) =~= tags@);
    out
}

/// The tags that say who made a file, with what, and when: artist, software and modification
/// date.
pub open spec fn is_credit_tag(tag: u16) -> bool {
    tag == ARTIST || tag == SOFTWARE || tag == MODIFY_DATE
}

/// The credit tags among `tags`, in their order.
pub open spec fn credit_tags(tags: Seq<u16>) -> Seq<u16> {
    tags.filter(|tag: u16| is_credit_tag(tag))
}

/// Pick the credit tags of a root directory.
pub fn select_credit_tags(tags: &Vec<u16>) -> (r: Vec<u16>)
    ensures
        r@ == credit_tags(tags@),
{
    let ghost credit = |tag: u16| is_credit_tag(tag);
    let mut out: Vec<u16> = Vec::new();
    let mut i: usize = 0;
    proof {
        reveal(Seq::filter);
    }
    assert(out@ =~= tags@.take(0).filter(credit));
    while i < tags.len()
        invariant
            i <= tags@.len(),
            credit == |tag: u16| is_credit_tag(tag),
            out@ == tags@.take(i as int).filter(credit),
        decreases tags@.len() - i,
    {
        proof {
            reveal(Seq::filter);
            assert(tags@.take(i + 1).drop_last() =~= tags@.take(i as int));
            assert(tags@.take(i + 1).last() == tags@[i as int]);
        }
        let tag: u16 = tags[i];
        if tag == ARTIST || tag == SOFTWARE || tag == MODIFY_DATE {
            out.push(tag);
        }
        i = i + 1;
    }
    assert(tags@.take(i as int) =~= tags@);
    out
}

/// Whether a directory holds a tag.
pub fn holds_tag(tags: &Vec<u16>, tag: u16) -> (r: bool)
    ensures
        r == tags@.contains(tag),
{
    let mut i: usize = 0;
    while i < tags.len()
        invariant
            i <= tags@.len(),
            forall|j: int| 0 <= j < i ==> #[trigger] tags@[j] != tag,
        decreases tags@.len() - i,
    {
        if tags[i] == tag {
            return true;
        }
        i = i + 1;
    }
    false
}

/// Whether a `MakerNoteSafety` entry declares the maker note unsafe: the entry holds 16-bit
/// numbers, and the first of them is missing or other than one, which stands for safe.
pub open spec fn declares_maker_notes_unsafe(entry: Option<TagValueView>) -> bool {
    match entry {
        Some(TagValueView::Short(v)) => v.len() == 0 || v[0] != 1,
        _ => false,
    }
}

/// The view of an entry that may be missing.
pub open spec fn entry_view(entry: Option<TagValue>) -> Option<TagValueView> {
    match entry {
        Some(value) => Some(value@),
        None => None,
    }
}

/// Decide from the `MakerNoteSafety` entry whether the maker note has to go.
pub fn maker_notes_unsafe(entry: &Option<TagValue>) -> (r: bool)
    ensures
        r == declares_maker_notes_unsafe(entry_view(*entry)),
{
    match entry {
        Some(TagValue::Short(v)) => v.len() == 0 || v[0] != 1,
        _ => false,
    }
}

/// A filtered sequence holds exactly the elements that are there and pass the test.
proof fn lemma_filter_contains(tags: Seq<u16>, keep: spec_fn(u16) -> bool, tag: u16)
    ensures
        tags.filter(keep).contains(tag) <==> tags.contains(tag) && keep(tag),
    decreases tags.len(),
{
    reveal(Seq::filter);
    if tags.len() > 0 {
        let rest = tags.drop_last();
        let last = tags.last();
        lemma_filter_contains(rest, keep, tag);
        assert(tags =~= rest.push(last));
        assert(tags.contains(tag) <==> rest.contains(tag) || tag == last) by {
            if rest.contains(tag) {
                let i = choose|i: int| 0 <= i < rest.len() && rest[i] == tag;
                assert(tags[i] == tag);
            }
            if tag == last {
                assert(tags[tags.len() - 1] == tag);
            }
        }
        let kept = rest.filter(keep);
        if keep(last) {
            assert(tags.filter(keep) == kept.push(last));
            assert(kept.push(last)[kept.len() as int] == last);
            if kept.contains(tag) {
                let i = choose|i: int| 0 <= i < kept.len() && kept[i] == tag;
                assert(kept.push(last)[i] == tag);
            }
        } else {
            assert(tags.filter(keep) == kept);
        }
    }
}

/// A tag is carried over exactly when it is in the input and one of the CinemaDNG tags.
pub proof fn law_carried_tags(tags: Seq<u16>, tag: u16)
    ensures
        carried_tags(tags).contains(tag) <==> tags.contains(tag) && is_carried_tag(tag),
{
    lemma_filter_contains(tags, |tag: u16| is_carried_tag(tag), tag);
}

/// The credit tags are exactly artist, software and modification date, where the input has them.
pub proof fn law_credit_tags(tags: Seq<u16>, tag: u16)
    ensures
        credit_tags(tags).contains(tag) <==> tags.contains(tag) && is_credit_tag(tag),
{
    lemma_filter_contains(tags, |tag: u16| is_credit_tag(tag), tag);
}

/// Filtering goes part by part.
proof fn lemma_filter_of_parts(a: Seq<u16>, b: Seq<u16>, keep: spec_fn(u16) -> bool)
    ensures
        (a + b).filter(keep) == a.filter(keep) + b.filter(keep),
    decreases b.len(),
{
    reveal(Seq::filter);
    if b.len() == 0 {
        assert(a + b =~= a);
        assert(a.filter(keep) + b.filter(keep) =~= a.filter(keep));
    } else {
        lemma_filter_of_parts(a, b.drop_last(), keep);
        assert((a + b).drop_last() =~= a + b.drop_last());
        assert((a + b).last() == b.last());
        assert((a + b).filter(keep) =~= a.filter(keep) + b.filter(keep));
    }
}

/// Tags are picked one by one, in the order of the directory and as often as they stand there:
/// `TimeCodes`, `FrameRate` and `TStop` are carried over; artist, software and modification date
/// are credits; and no tag is anything else.
pub proof fn law_tags_are_picked_in_order(a: Seq<u16>, tag: u16, b: Seq<u16>)
    ensures
        carried_tags(a + b) == carried_tags(a) + carried_tags(b),
        credit_tags(a + b) == credit_tags(a) + credit_tags(b),
        carried_tags(seq![tag]) == if tag == 51043 || tag == 51044 || tag == 51058 {
            seq![tag]
        } else {
            seq![]
        },
        credit_tags(seq![tag]) == if tag == 315 || tag == 305 || tag == 306 {
            seq![tag]
        } else {
            seq![]
        },
        carried_tags(seq![]) == Seq::<u16>::empty(),
        credit_tags(seq![]) == Seq::<u16>::empty(),
{
    lemma_filter_of_parts(a, b, |tag: u16| is_carried_tag(tag));
    lemma_filter_of_parts(a, b, |tag: u16| is_credit_tag(tag));
    reveal(Seq::filter);
    let none = Seq::<u16>::empty();
    assert(seq![tag].drop_last() =~= none);
    assert(none.filter(|tag: u16| is_carried_tag(tag)) =~= none);
    assert(none.filter(|tag: u16| is_credit_tag(tag)) =~= none);
    assert(none.push(tag) =~= seq![tag]);
}

/// The maker note may stay where nothing is said of its safety, where what is said is not a
/// 16-bit number, and where the first number is one. Everywhere else it has to go.
pub proof fn law_maker_notes_stay_when_safe(entry: Option<TagValue>)
    ensures
        !declares_maker_notes_unsafe(entry_view(entry)) <==> match entry {
            None => true,
            Some(TagValue::Short(v)) => v@.len() > 0 && v@[0] == 1,
            Some(TagValue::Ascii(_)) => true,
            Some(TagValue::Other) => true,
        },
{
}

/// A value stands for its numbers or for its text, unchanged.
pub proof fn law_value_stands_for_content(value: TagValue)
    ensures
        value matches TagValue::Short(v) ==> value@ == TagValueView::Short(v@),
        value matches TagValue::Ascii(s) ==> value@ == TagValueView::Ascii(s@),
        value is Other ==> value@ is Other,
{
}

} // verus!
