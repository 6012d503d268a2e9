//! What holds of every course of a conversion.

use vstd::prelude::*;

use crate::action::{ActionView, Reply};
use crate::conversion::{answers, ends, law_step_keeps_wf, Facts, Job, PreviewSearch, Progress};
use crate::image::{ImageFacts, RawPhotometricInterpretation};
use crate::modify_date::{law_date_layout, modify_date_text};
use crate::params::{ConvertParams, DngPhotometricConversion};
use crate::stage::{law_rank_identifies_stage, Stage, LAST_RANK};
use crate::tags::{
    credit_tags, entry_view, is_carried_tag, is_credit_tag, law_carried_tags, law_credit_tags,
    TagValueView, MODIFY_DATE, ORIENTATION,
};

verus! {

/// The reply with number `i` leads from one state to the next.
pub open spec fn is_step<E>(states: Seq<Progress>, replies: Seq<Reply<E>>, i: int) -> bool {
    &&& answers(states[i].stage, replies[i])
    &&& !ends(states[i].stage, replies[i])
    &&& states[i].steps_to(replies[i], states[i + 1])
}

/// The states that a conversion goes through from its start, under the given replies.
pub open spec fn is_run<E>(states: Seq<Progress>, replies: Seq<Reply<E>>) -> bool {
    &&& states.len() == replies.len() + 1
    &&& states[0].is_start()
    &&& forall|i: int| 0 <= i < replies.len() ==> #[trigger] is_step(states, replies, i)
}

/// The stage is taken up in the course of the run.
pub open spec fn performed(states: Seq<Progress>, stage: Stage) -> bool {
    exists|i: int| 0 <= i < states.len() && (#[trigger] states[i]).stage == stage
}

/// A run without its last step is a run.
proof fn lemma_shorter_run<E>(states: Seq<Progress>, replies: Seq<Reply<E>>)
    requires
        is_run(states, replies),
        replies.len() > 0,
    ensures
        is_run(states.drop_last(), replies.drop_last()),
        is_step(states, replies, replies.len() - 1),
{
    let shorter_states = states.drop_last();
    let shorter_replies = replies.drop_last();
    assert forall|i: int| 0 <= i < shorter_replies.len() implies #[trigger] is_step(
        shorter_states,
        shorter_replies,
        i,
    ) by {
        assert(is_step(states, replies, i));
    }
    assert(is_step(states, replies, replies.len() - 1));
}

/// A step does not change whether the current stage or an earlier one applies.
proof fn lemma_step_keeps_past<E>(
    before: Progress,
    reply: Reply<E>,
    after: Progress,
    stage: Stage,
)
    requires
        answers(before.stage, reply),
        before.steps_to(reply, after),
        stage.rank() <= before.stage.rank(),
    ensures
        after.applies(stage) == before.applies(stage),
{
}

/// The states of a run are well formed, and share job, parameters and name.
pub proof fn law_run_keeps_settings<E>(states: Seq<Progress>, replies: Seq<Reply<E>>, i: int)
    requires
        is_run(states, replies),
        0 <= i < states.len(),
    ensures
        states[i].wf(),
        states[i].applies(states[i].stage),
        states[i].job == states[0].job,
        states[i].params == states[0].params,
        states[i].name == states[0].name,
    decreases i,
{
    if i > 0 {
        law_run_keeps_settings(states, replies, i - 1);
        assert(is_step(states, replies, i - 1));
        law_step_keeps_wf(states[i - 1], replies[i - 1], states[i]);
    } else {
        let start = states[0];
        assert(start.applies(Stage::GetDecoder));
    }
}

/// The stages are taken up in their order, none of them twice.
pub proof fn law_run_is_ordered<E>(
    states: Seq<Progress>,
    replies: Seq<Reply<E>>,
    i: int,
    j: int,
)
    requires
        is_run(states, replies),
        0 <= i < j < states.len(),
    ensures
        states[i].stage.rank() < states[j].stage.rank(),
    decreases j - i,
{
    assert(is_step(states, replies, j - 1));
    if i < j - 1 {
        law_run_is_ordered(states, replies, i, j - 1);
    }
}

/// A conversion comes to its end: it takes no more steps than there are stages.
pub proof fn law_run_is_bounded<E>(states: Seq<Progress>, replies: Seq<Reply<E>>)
    requires
        is_run(states, replies),
    ensures
        replies.len() <= states.last().stage.rank() <= LAST_RANK,
    decreases replies.len(),
{
    law_rank_identifies_stage(states.last().stage, states.last().stage);
    if replies.len() > 0 {
        lemma_shorter_run(states, replies);
        law_run_is_bounded(states.drop_last(), replies.drop_last());
    }
}

/// Of the stages up to the current one, exactly those were taken up that apply, by all that is
/// known by now: no stage is skipped, and none is taken up that does not apply.
pub proof fn law_run_performs_what_applies<E>(
    states: Seq<Progress>,
    replies: Seq<Reply<E>>,
    stage: Stage,
)
    requires
        is_run(states, replies),
        stage.rank() <= states.last().stage.rank(),
    ensures
        performed(states, stage) <==> states.last().applies(stage),
    decreases replies.len(),
{
    let last = states.last();
    if replies.len() == 0 {
        law_rank_identifies_stage(stage, last.stage);
        assert(states[0] == last);
        if stage.rank() < last.stage.rank() {
            assert(!last.applies(stage));
        }
    } else {
        let n = replies.len() as int;
        let before = states[n - 1];
        let reply = replies[n - 1];
        let shorter = states.drop_last();
        lemma_shorter_run(states, replies);
        assert(shorter.last() == before);
        if stage.rank() <= before.stage.rank() {
            law_run_performs_what_applies(shorter, replies.drop_last(), stage);
            lemma_step_keeps_past(before, reply, last, stage);
            if performed(shorter, stage) {
                let i = choose|i: int|
                    0 <= i < shorter.len() && (#[trigger] shorter[i]).stage == stage;
                assert(states[i].stage == stage);
            }
            if performed(states, stage) {
                let i = choose|i: int|
                    0 <= i < states.len() && (#[trigger] states[i]).stage == stage;
                assert(shorter[i].stage == stage);
            }
        } else {
            if stage.rank() == last.stage.rank() {
                law_rank_identifies_stage(stage, last.stage);
                assert(states[n].stage == stage);
            } else {
                assert(!last.applies(stage));
                if performed(states, stage) {
                    let i = choose|i: int|
                        0 <= i < states.len() && (#[trigger] states[i]).stage == stage;
                    if i < n - 1 {
                        law_run_is_ordered(states, replies, i, n - 1);
                    }
                }
            }
        }
    }
}

/// A conversion that finishes without an error has written the raw image, the tags of its own
/// and the original where it was to be embedded, and has closed the file. Only a conversion of a
/// raw image records artist and software; it always sets the modification date, which otherwise
/// is set only where the input has none.
pub proof fn law_finished_file_is_complete<E>(states: Seq<Progress>, replies: Seq<Reply<E>>)
    requires
        is_run(states, replies),
        states.last().stage == Stage::Finished,
    ensures
        performed(states, Stage::CreateWriter),
        performed(states, Stage::WriteRawImage),
        performed(states, Stage::FinishRawImage),
        performed(states, Stage::LoadBaseTags),
        performed(states, Stage::LoadMetadata),
        performed(states, Stage::SetArtist) <==> states[0].converting()
            && states[0].params.artist is Some,
        performed(states, Stage::SetSoftware) <==> states[0].converting(),
        performed(states, Stage::SetModifyDate) <==> states[0].converting()
            || !states.last().input_has_date(),
        performed(states, Stage::Close),
        states[0].converting() ==> (performed(states, Stage::WriteOriginal)
            <==> states[0].params.embedded),
{
    law_run_keeps_settings(states, replies, states.len() - 1);
    law_run_performs_what_applies(states, replies, Stage::CreateWriter);
    law_run_performs_what_applies(states, replies, Stage::WriteRawImage);
    law_run_performs_what_applies(states, replies, Stage::FinishRawImage);
    law_run_performs_what_applies(states, replies, Stage::LoadBaseTags);
    law_run_performs_what_applies(states, replies, Stage::LoadMetadata);
    law_run_performs_what_applies(states, replies, Stage::SetArtist);
    law_run_performs_what_applies(states, replies, Stage::SetSoftware);
    law_run_performs_what_applies(states, replies, Stage::SetModifyDate);
    law_run_performs_what_applies(states, replies, Stage::Close);
    law_run_performs_what_applies(states, replies, Stage::WriteOriginal);
}

/// A failure that ends a conversion leaves the file unfinished, unless finishing it is what
/// failed.
pub proof fn law_failure_leaves_file_open<E>(
    states: Seq<Progress>,
    replies: Seq<Reply<E>>,
    failure: Reply<E>,
)
    requires
        is_run(states, replies),
        answers(states.last().stage, failure),
        ends(states.last().stage, failure),
        states.last().stage != Stage::Close,
    ensures
        !performed(states, Stage::Close),
{
    if performed(states, Stage::Close) {
        let i = choose|i: int|
            0 <= i < states.len() && (#[trigger] states[i]).stage == Stage::Close;
        if i < states.len() - 1 {
            law_run_is_ordered(states, replies, i, states.len() - 1);
        }
    }
}

/// An image is rotated only after its samples have been scaled.
pub proof fn law_rotation_comes_after_scaling<E>(
    states: Seq<Progress>,
    replies: Seq<Reply<E>>,
    j: int,
) -> (i: int)
    requires
        is_run(states, replies),
        0 <= j < states.len(),
        states[j].stage == Stage::Rotate,
    ensures
        0 <= i < j,
        states[i].stage == Stage::ApplyScaling,
{
    let n = states.len() - 1;
    if j < n {
        law_run_is_ordered(states, replies, j, n);
    }
    assert(performed(states, Stage::Rotate));
    law_run_performs_what_applies(states, replies, Stage::Rotate);
    law_run_performs_what_applies(states, replies, Stage::ApplyScaling);
    let i = choose|i: int|
        0 <= i < states.len() && (#[trigger] states[i]).stage == Stage::ApplyScaling;
    if j < i {
        law_run_is_ordered(states, replies, j, i);
    }
    i
}

/// The root directory takes at most one image: the raw image where no thumbnail was asked for,
/// and else at most the thumbnail.
pub proof fn law_root_takes_one_image(state: Progress)
    ensures
        state.action_of(Stage::WriteRawImage) matches ActionView::WriteRawImage { on_root, .. }
            && on_root == !state.params.thumbnail && (state.applies(Stage::WriteThumbnail)
            ==> !on_root),
{
}

/// Artist, software and modification date stand in the file as they were set: once one of them
/// is set, all that follows sets another of the three, closes the file, or only reads.
pub proof fn law_own_tags_stand<E>(
    states: Seq<Progress>,
    replies: Seq<Reply<E>>,
    i: int,
    j: int,
)
    requires
        is_run(states, replies),
        0 <= i < j < states.len(),
        states[i].stage == Stage::SetArtist || states[i].stage == Stage::SetSoftware
            || states[i].stage == Stage::SetModifyDate,
        states[j].stage != Stage::Finished,
    ensures
        match states[j].action_of(states[j].stage) {
            ActionView::SetRootTag { tag, .. } => states[i].action_of(states[i].stage) matches
                ActionView::SetRootTag { tag: earlier, .. } && earlier != tag,
            ActionView::Close => true,
            ActionView::ReadLastModified => true,
            _ => false,
        },
{
    law_run_is_ordered(states, replies, i, j);
}

/// Up to the stage that develops a preview, none has been developed.
proof fn lemma_no_early_preview<E>(states: Seq<Progress>, replies: Seq<Reply<E>>, i: int)
    requires
        is_run(states, replies),
        0 <= i < states.len(),
        states[i].stage.rank() <= Stage::DevelopPreview.rank(),
    ensures
        !states[i].facts.developed,
    decreases i,
{
    if i > 0 {
        assert(is_step(states, replies, i - 1));
        lemma_no_early_preview(states, replies, i - 1);
    }
}

/// When no preview image can be had, the conversion goes on with the tags, and neither previews
/// nor a thumbnail are written: whether the search for a preview fails, developing one fails, or
/// what was developed is no proper image.
pub proof fn law_missing_preview_is_tolerated<E>(
    states: Seq<Progress>,
    replies: Seq<Reply<E>>,
    reply: Reply<E>,
    after: Progress,
)
    requires
        is_run(states, replies),
        states.last().stage == Stage::FindPreview && reply is Failed || states.last().stage
            == Stage::DevelopPreview && (reply is Failed || reply == Reply::<E>::Present(false)),
        states.last().steps_to(reply, after),
    ensures
        !ends(states.last().stage, reply),
        after.stage == Stage::LoadBaseTags,
{
    law_run_keeps_settings(states, replies, states.len() - 1);
    lemma_no_early_preview(states, replies, states.len() - 1);
    assert(after.applies(Stage::LoadBaseTags));
    law_rank_identifies_stage(after.stage, Stage::LoadBaseTags);
}

/// Before the last reading nothing is known of a timestamp.
proof fn lemma_no_early_timestamp<E>(states: Seq<Progress>, replies: Seq<Reply<E>>, i: int)
    requires
        is_run(states, replies),
        0 <= i < states.len(),
        states[i].stage.rank() <= Stage::ReadLastModified.rank(),
    ensures
        states[i].facts.last_modified is None,
    decreases i,
{
    if i > 0 {
        assert(is_step(states, replies, i - 1));
        lemma_no_early_timestamp(states, replies, i - 1);
    }
}

/// A finished conversion reports the timestamp of the metadata; none if there was none, or if
/// reading it failed.
pub proof fn law_reported_timestamp<E>(states: Seq<Progress>, replies: Seq<Reply<E>>)
    requires
        is_run(states, replies),
        states.last().stage == Stage::Finished,
        states[0].converting(),
    ensures
        replies.len() > 0,
        states.last().facts.last_modified == match replies.last() {
            Reply::LastModified(time) => time,
            _ => None,
        },
{
    law_run_keeps_settings(states, replies, 0);
    assert(states[0].applies(Stage::GetDecoder));
    let n = replies.len() as int;
    law_run_keeps_settings(states, replies, n);
    law_run_keeps_settings(states, replies, n - 1);
    let before = states[n - 1];
    assert(is_step(states, replies, n - 1));
    assert(states[n].applies(Stage::ReadLastModified));
    law_rank_identifies_stage(before.stage, Stage::ReadLastModified);
    assert(before.stage == Stage::ReadLastModified) by {
        law_rank_identifies_stage(before.stage, Stage::Finished);
    }
    lemma_no_early_timestamp(states, replies, n - 1);
}

/// Replacing a preview leaves the samples of the raw image and the maker note alone, embeds
/// nothing that it compressed itself, and of the root tags it sets only the orientation, and the
/// modification date where the input is not known to have one.
pub proof fn law_reembed_preserves<E>(states: Seq<Progress>, replies: Seq<Reply<E>>, i: int)
    requires
        is_run(states, replies),
        states[0].job == Job::Reembed,
        0 <= i < states.len(),
        states[i].stage != Stage::Finished,
    ensures
        match states[i].action_of(states[i].stage) {
            ActionView::ApplyScaling => false,
            ActionView::Rotate { .. } => false,
            ActionView::AdoptRotation { .. } => false,
            ActionView::FindPreview { .. } => false,
            ActionView::DevelopPreview => false,
            ActionView::RemoveExifTag { .. } => false,
            ActionView::SetRootTag { tag, .. } => tag == ORIENTATION || tag == MODIFY_DATE
                && !states[i].input_has_date(),
            ActionView::StartCompression => false,
            ActionView::JoinCompression => false,
            _ => true,
        },
{
    law_run_keeps_settings(states, replies, i);
}

/// Replacing a preview carries artist, software and modification date over as the input has
/// them: a finished one has copied exactly those of the three that the input's root directory
/// holds, and nothing that follows touches what was copied.
pub proof fn law_reembed_keeps_credits<E>(states: Seq<Progress>, replies: Seq<Reply<E>>) -> (i: int)
    requires
        is_run(states, replies),
        states[0].job == Job::Reembed,
        states.last().stage == Stage::Finished,
        states.last().facts.tiff_root is Some,
    ensures
        !performed(states, Stage::SetArtist),
        !performed(states, Stage::SetSoftware),
        0 <= i < states.len(),
        states[i].stage == Stage::CarryCredits,
        states[i].action_of(states[i].stage) matches ActionView::CopyTiffRootTags { tags } && {
            forall|tag: u16| #[trigger]
                tags.contains(tag) <==> is_credit_tag(tag)
                    && states.last().facts.tiff_root->0@.contains(tag)
        },
        forall|j: int|
            i < j < states.len() ==> (#[trigger] states[j]).stage == Stage::SetModifyDate
                && !states.last().input_has_date() || states[j].stage == Stage::Close
                || states[j].stage == Stage::Finished,
{
    let n = states.len() - 1;
    law_run_keeps_settings(states, replies, n);
    law_run_performs_what_applies(states, replies, Stage::SetArtist);
    law_run_performs_what_applies(states, replies, Stage::SetSoftware);
    law_run_performs_what_applies(states, replies, Stage::CarryCredits);
    let i = choose|i: int|
        0 <= i < states.len() && (#[trigger] states[i]).stage == Stage::CarryCredits;
    lemma_later_facts(states, replies, i, n);
    let held = states[i].facts.tiff_root->0@;
    assert forall|tag: u16| #[trigger]
        credit_tags(held).contains(tag) <==> is_credit_tag(tag) && held.contains(tag) by {
        law_credit_tags(held, tag);
    }
    assert forall|j: int| i < j < states.len() implies (#[trigger] states[j]).stage
        == Stage::SetModifyDate && !states.last().input_has_date() || states[j].stage
        == Stage::Close || states[j].stage == Stage::Finished by {
        law_run_is_ordered(states, replies, i, j);
        law_run_keeps_settings(states, replies, j);
        lemma_later_facts(states, replies, j, n);
    }
    i
}

/// Replacing a preview keeps the modification date of the input, byte for byte and whatever the
/// name of the file: where the input has one it is copied, and none is set over it.
pub proof fn law_reembed_keeps_date<E>(states: Seq<Progress>, replies: Seq<Reply<E>>) -> (i: int)
    requires
        is_run(states, replies),
        states[0].job == Job::Reembed,
        states.last().stage == Stage::Finished,
        states.last().facts.tiff_root is Some,
        states.last().facts.tiff_root->0@.contains(MODIFY_DATE),
    ensures
        0 <= i < states.len(),
        states[i].stage == Stage::CarryCredits,
        states[i].action_of(states[i].stage) matches ActionView::CopyTiffRootTags { tags }
            && tags.contains(MODIFY_DATE),
        !performed(states, Stage::SetModifyDate),
        forall|j: int|
            i < j < states.len() ==> (#[trigger] states[j]).stage == Stage::Close
                || states[j].stage == Stage::Finished,
{
    law_run_keeps_settings(states, replies, states.len() - 1);
    law_run_performs_what_applies(states, replies, Stage::SetModifyDate);
    law_reembed_keeps_credits(states, replies)
}

/// Once the edited preview is open, it is the preview image.
proof fn lemma_reembed_has_preview<E>(states: Seq<Progress>, replies: Seq<Reply<E>>, i: int)
    requires
        is_run(states, replies),
        states[0].job == Job::Reembed,
        0 <= i < states.len(),
        states[i].stage.rank() > Stage::OpenPreview.rank(),
    ensures
        states[i].facts.preview == PreviewSearch::Found,
    decreases i,
{
    law_run_keeps_settings(states, replies, i);
    assert(states[0].applies(Stage::OpenSource));
    law_rank_identifies_stage(states[0].stage, Stage::OpenSource);
    assert(i > 0);
    assert(is_step(states, replies, i - 1));
    law_run_keeps_settings(states, replies, i - 1);
    let before = states[i - 1];
    assert(states[i].applies(Stage::OpenPreview));
    law_rank_identifies_stage(before.stage, Stage::OpenPreview);
    if before.stage != Stage::OpenPreview {
        lemma_reembed_has_preview(states, replies, i - 1);
    }
}

/// Replacing a preview makes previews and thumbnail from the edited image alone: a finished one
/// has opened it and looked for no other, has written the two frames of the pyramid exactly if
/// previews were asked for, and the thumbnail exactly if one was.
pub proof fn law_reembed_shows_edited_image<E>(states: Seq<Progress>, replies: Seq<Reply<E>>)
    requires
        is_run(states, replies),
        states[0].job == Job::Reembed,
        states.last().stage == Stage::Finished,
    ensures
        performed(states, Stage::OpenPreview),
        !performed(states, Stage::FindPreview),
        !performed(states, Stage::DevelopPreview),
        performed(states, Stage::WriteMediumPreview) <==> states[0].params.preview,
        performed(states, Stage::FinishMediumPreview) <==> states[0].params.preview,
        performed(states, Stage::WriteFullPreview) <==> states[0].params.preview,
        performed(states, Stage::FinishFullPreview) <==> states[0].params.preview,
        performed(states, Stage::WriteThumbnail) <==> states[0].params.thumbnail,
{
    law_run_keeps_settings(states, replies, states.len() - 1);
    lemma_reembed_has_preview(states, replies, states.len() - 1);
    law_run_performs_what_applies(states, replies, Stage::OpenPreview);
    law_run_performs_what_applies(states, replies, Stage::FindPreview);
    law_run_performs_what_applies(states, replies, Stage::DevelopPreview);
    law_run_performs_what_applies(states, replies, Stage::WriteMediumPreview);
    law_run_performs_what_applies(states, replies, Stage::FinishMediumPreview);
    law_run_performs_what_applies(states, replies, Stage::WriteFullPreview);
    law_run_performs_what_applies(states, replies, Stage::FinishFullPreview);
    law_run_performs_what_applies(states, replies, Stage::WriteThumbnail);
}

/// What was known of the root directory and of the original is not forgotten.
proof fn lemma_later_facts<E>(states: Seq<Progress>, replies: Seq<Reply<E>>, i: int, j: int)
    requires
        is_run(states, replies),
        0 <= i <= j < states.len(),
        states[i].stage.rank() > Stage::FetchOriginal.rank(),
    ensures
        states[j].facts.tiff_root == states[i].facts.tiff_root,
        states[j].facts.original_name == states[i].facts.original_name,
    decreases j - i,
{
    if i < j {
        assert(is_step(states, replies, i));
        lemma_later_facts(states, replies, i + 1, j);
    }
}

/// Replacing a preview preserves the embedded original. A finished one that was to keep it has
/// asked the input for it, and has next embedded it under the name that was recorded with it. An
/// input that embeds none gets none.
pub proof fn law_reembed_keeps_original<E>(states: Seq<Progress>, replies: Seq<Reply<E>>) -> (i: int)
    requires
        is_run(states, replies),
        states[0].job == Job::Reembed,
        states[0].params.embedded,
        states.last().stage == Stage::Finished,
    ensures
        0 <= i < replies.len(),
        states[i].stage == Stage::FetchOriginal,
        replies[i] is Original,
        match replies[i]->Original_0 {
            Some(name) => {
                &&& states[i + 1].stage == Stage::WriteOriginal
                &&& states[i + 1].action_of(Stage::WriteOriginal) == (
                ActionView::WriteOriginal { name: name@ })
            },
            None => !performed(states, Stage::WriteOriginal),
        },
{
    let n = states.len() - 1;
    law_run_keeps_settings(states, replies, n);
    law_run_performs_what_applies(states, replies, Stage::FetchOriginal);
    let i = choose|i: int|
        0 <= i < states.len() && (#[trigger] states[i]).stage == Stage::FetchOriginal;
    assert(is_step(states, replies, i));
    law_run_keeps_settings(states, replies, i + 1);
    lemma_later_facts(states, replies, i + 1, n);
    law_run_performs_what_applies(states, replies, Stage::WriteOriginal);
    if replies[i]->Original_0 is Some {
        assert(states[i + 1].applies(Stage::WriteOriginal));
        law_rank_identifies_stage(states[i + 1].stage, Stage::WriteOriginal);
    }
    i
}

/// Where no original is to be kept, replacing a preview writes none.
pub proof fn law_reembed_drops_unwanted_original<E>(
    states: Seq<Progress>,
    replies: Seq<Reply<E>>,
    i: int,
)
    requires
        is_run(states, replies),
        states[0].job == Job::Reembed,
        !states[0].params.embedded,
        0 <= i < states.len(),
    ensures
        states[i].facts.original_name is None,
        states[i].stage != Stage::FetchOriginal,
        states[i].stage != Stage::WriteOriginal,
    decreases i,
{
    law_run_keeps_settings(states, replies, i);
    if i > 0 {
        assert(is_step(states, replies, i - 1));
        law_reembed_drops_unwanted_original(states, replies, i - 1);
    }
}

/// The raw image at hand when the stage with number `i` is taken up: decoding makes it, scaling
/// and adopting a rotation change it, and all other work leaves it as it is. `none` stands for
/// none, `decode` for what the decoder makes of an index, and `change` for what an action makes
/// of an image.
pub open spec fn image_at_hand<I>(
    states: Seq<Progress>,
    i: int,
    none: I,
    decode: spec_fn(usize) -> I,
    change: spec_fn(ActionView, I) -> I,
) -> I
    decreases i,
{
    if i <= 0 {
        none
    } else {
        let before = image_at_hand(states, i - 1, none, decode, change);
        let action = states[i - 1].action_of(states[i - 1].stage);
        match action {
            ActionView::ReadImage { index } => decode(index),
            ActionView::ApplyScaling => change(action, before),
            ActionView::AdoptRotation { .. } => change(action, before),
            _ => before,
        }
    }
}

proof fn lemma_reembed_holds_decoded_image<E, I>(
    states: Seq<Progress>,
    replies: Seq<Reply<E>>,
    i: int,
    none: I,
    decode: spec_fn(usize) -> I,
    change: spec_fn(ActionView, I) -> I,
)
    requires
        is_run(states, replies),
        states[0].job == Job::Reembed,
        0 <= i < states.len(),
        states[i].stage.rank() > Stage::ReadImage.rank(),
    ensures
        image_at_hand(states, i, none, decode, change) == decode(states[0].params.index),
    decreases i,
{
    law_run_keeps_settings(states, replies, i);
    assert(states[0].applies(Stage::OpenSource));
    law_rank_identifies_stage(states[0].stage, Stage::OpenSource);
    assert(i > 0);
    assert(is_step(states, replies, i - 1));
    law_run_keeps_settings(states, replies, i - 1);
    assert(states[i].applies(Stage::ReadImage));
    let before = states[i - 1];
    law_rank_identifies_stage(before.stage, Stage::ReadImage);
    law_rank_identifies_stage(before.stage, Stage::Finished);
    if before.stage != Stage::ReadImage {
        lemma_reembed_holds_decoded_image(states, replies, i - 1, none, decode, change);
        law_reembed_preserves(states, replies, i - 1);
    }
}

/// Raw pixels survive the replacement of a preview, whatever the preview is. The image that the
/// writer is handed is the one that was decoded from the input; so wherever the writer keeps
/// what it is handed, reading it back from the output gives the decoded image again. `write` and
/// `read` stand for the writer and the reader of a raw image; that they agree is asked of the
/// settings with which this image is written, and of no others.
pub proof fn law_reembed_preserves_pixels<E, I, F>(
    states: Seq<Progress>,
    replies: Seq<Reply<E>>,
    i: int,
    none: I,
    decode: spec_fn(usize) -> I,
    change: spec_fn(ActionView, I) -> I,
    write: spec_fn(ActionView, I) -> F,
    read: spec_fn(F) -> I,
)
    requires
        is_run(states, replies),
        states[0].job == Job::Reembed,
        0 <= i < states.len(),
        states[i].stage == Stage::WriteRawImage,
        forall|image: I|
            #![trigger write(states[i].action_of(Stage::WriteRawImage), image)]
            read(write(states[i].action_of(Stage::WriteRawImage), image)) == image,
    ensures
        image_at_hand(states, i, none, decode, change) == decode(states[0].params.index),
        read(
            write(
                states[i].action_of(Stage::WriteRawImage),
                image_at_hand(states, i, none, decode, change),
            ),
        ) == decode(states[0].params.index),
{
    lemma_reembed_holds_decoded_image(states, replies, i, none, decode, change);
}

/// An orientation that the root directory already has is not overwritten by the converter.
pub proof fn law_orientation_is_kept<E>(states: Seq<Progress>, replies: Seq<Reply<E>>)
    requires
        is_run(states, replies),
        states.last().facts.has_orientation,
        states.last().stage.rank() > Stage::CheckOrientation.rank(),
    ensures
        !performed(states, Stage::SetOrientation),
{
    if performed(states, Stage::SetOrientation) {
        let i = choose|i: int|
            0 <= i < states.len() && (#[trigger] states[i]).stage == Stage::SetOrientation;
        if i < states.len() - 1 {
            law_run_is_ordered(states, replies, i, states.len() - 1);
        }
        law_run_performs_what_applies(states, replies, Stage::SetOrientation);
    }
}

/// Of the input's own root directory only CinemaDNG tags are copied.
pub proof fn law_only_carried_tags_are_copied(state: Progress, tags: Seq<u16>, tag: u16)
    requires
        state.action_of(state.stage) == (ActionView::CopyTiffRootTags { tags }),
        state.stage == Stage::CopyTiffRootTags,
        tags.contains(tag),
    ensures
        is_carried_tag(tag),
        state.facts.tiff_root->0@.contains(tag),
{
    law_carried_tags(state.facts.tiff_root->0@, tag);
}

/// The writer is asked for a linear image only where the image to be written is linear already:
/// as it was decoded, or because it was rotated.
pub proof fn law_linear_needs_linear_data(state: Progress)
    requires
        state.action_of(Stage::WriteRawImage) matches ActionView::WriteRawImage {
            photometric,
            ..
        } && photometric == DngPhotometricConversion::Linear,
    ensures
        state.rotating() || state.facts.image->0.photometric
            == RawPhotometricInterpretation::LinearRaw,
{
}

/// Two sets of parameters with the same contents, except perhaps for the seed.
pub open spec fn same_params_but_seed(a: ConvertParams, b: ConvertParams) -> bool {
    &&& a.embedded == b.embedded
    &&& a.compression == b.compression
    &&& a.photometric_conversion == b.photometric_conversion
    &&& a.apply_scaling == b.apply_scaling
    &&& a.crop == b.crop
    &&& a.predictor == b.predictor
    &&& a.preview == b.preview
    &&& a.thumbnail == b.thumbnail
    &&& same_text(a.artist, b.artist)
    &&& a.software@ == b.software@
    &&& a.index == b.index
    &&& a.dng_version@ == b.dng_version@
    &&& a.preview_medium == b.preview_medium
    &&& a.preview_full == b.preview_full
    &&& a.jpeg_quality == b.jpeg_quality
    &&& a.linear == b.linear
}

/// Two sets of parameters with the same contents.
pub open spec fn same_params(a: ConvertParams, b: ConvertParams) -> bool {
    same_params_but_seed(a, b) && a.seed@ == b.seed@
}

/// Two images of which the same is known.
pub open spec fn same_image(a: ImageFacts, b: ImageFacts) -> bool {
    &&& a.size == b.size
    &&& a.active_area == b.active_area
    &&& a.fuji_rotation_width == b.fuji_rotation_width
    &&& a.photometric == b.photometric
    &&& a.orientation == b.orientation
    &&& a.hints@.len() == b.hints@.len()
    &&& forall|i: int|
        0 <= i < a.hints@.len() ==> (#[trigger] a.hints@[i])@ == (#[trigger] b.hints@[i])@
}

/// Two directories with the same tags, or none at all.
pub open spec fn same_tags(a: Option<Vec<u16>>, b: Option<Vec<u16>>) -> bool {
    &&& (a is Some) == (b is Some)
    &&& a is Some ==> a->0@ == b->0@
}

/// Two texts that are the same, or both missing.
pub open spec fn same_text(a: Option<String>, b: Option<String>) -> bool {
    &&& (a is Some) == (b is Some)
    &&& a is Some ==> a->0@ == b->0@
}

/// The same is known.
pub open spec fn same_facts(a: Facts, b: Facts) -> bool {
    &&& (a.image is Some) == (b.image is Some)
    &&& a.image is Some ==> same_image(a.image->0, b.image->0)
    &&& a.rotated == b.rotated
    &&& a.raw_tags == b.raw_tags
    &&& a.preview == b.preview
    &&& a.developed == b.developed
    &&& a.has_orientation == b.has_orientation
    &&& a.dng_root_tags == b.dng_root_tags
    &&& same_tags(a.tiff_root, b.tiff_root)
    &&& entry_view(a.maker_note_safety) == entry_view(b.maker_note_safety)
    &&& a.xpacket == b.xpacket
    &&& same_text(a.original_name, b.original_name)
    &&& a.last_modified == b.last_modified
}

/// Two conversions that are equally far and know the same, where the seeds may differ and the
/// raw input of one may have been open from the start.
pub open spec fn alike(a: Progress, b: Progress) -> bool {
    &&& a.converting() == b.converting()
    &&& same_params_but_seed(a.params, b.params)
    &&& a.name == b.name
    &&& same_facts(a.facts, b.facts)
    &&& a.stage == b.stage
}

/// Two conversions in the same state.
pub open spec fn same_progress(a: Progress, b: Progress) -> bool {
    &&& alike(a, b)
    &&& a.job == b.job
    &&& a.params.seed@ == b.params.seed@
}

/// Two replies that say the same.
pub open spec fn same_reply<E>(a: Reply<E>, b: Reply<E>) -> bool {
    match (a, b) {
        (Reply::Done, Reply::Done) => true,
        (Reply::Image(x), Reply::Image(y)) => same_image(x, y),
        (Reply::Rotated(x), Reply::Rotated(y)) => x == y,
        (Reply::Present(x), Reply::Present(y)) => x == y,
        (Reply::Tags(x), Reply::Tags(y)) => same_tags(x, y),
        (Reply::Entry(x), Reply::Entry(y)) => entry_view(x) == entry_view(y),
        (Reply::Original(x), Reply::Original(y)) => same_text(x, y),
        (Reply::LastModified(x), Reply::LastModified(y)) => x == y,
        (Reply::Failed(_), Reply::Failed(_)) => true,
        _ => false,
    }
}

proof fn lemma_same_hints(a: ImageFacts, b: ImageFacts, name: Seq<char>)
    requires
        same_image(a, b),
    ensures
        a.has_hint(name) == b.has_hint(name),
{
    if a.has_hint(name) {
        let i = choose|i: int| 0 <= i < a.hints@.len() && (#[trigger] a.hints@[i])@ == name;
        assert(b.hints@[i]@ == name);
    }
    if b.has_hint(name) {
        let i = choose|i: int| 0 <= i < b.hints@.len() && (#[trigger] b.hints@[i])@ == name;
        assert(a.hints@[i]@ == name);
    }
}

proof fn lemma_alike_conditions(a: Progress, b: Progress, stage: Stage)
    requires
        a.converting() == b.converting(),
        a.job == b.job || stage != Stage::OpenSource,
        same_params_but_seed(a.params, b.params),
        same_facts(a.facts, b.facts),
    ensures
        a.rotating() == b.rotating(),
        a.applies(stage) == b.applies(stage),
{
    if a.facts.image is Some {
        lemma_same_hints(a.facts.image->0, b.facts.image->0, "fuji_rotation"@);
        lemma_same_hints(a.facts.image->0, b.facts.image->0, "fuji_rotation_alt"@);
    }
}

proof fn lemma_alike_work(a: Progress, b: Progress)
    requires
        alike(a, b),
        a.wf(),
        a.stage != Stage::Finished,
        a.stage != Stage::SetModifyDate || a.params.seed@ == b.params.seed@,
    ensures
        a.action_of(a.stage) == b.action_of(b.stage),
{
    if a.facts.image is Some {
        lemma_same_hints(a.facts.image->0, b.facts.image->0, "fuji_rotation"@);
        lemma_same_hints(a.facts.image->0, b.facts.image->0, "fuji_rotation_alt"@);
        lemma_same_hints(a.facts.image->0, b.facts.image->0, "fuji_rotate_90cw"@);
    }
}

proof fn lemma_alike_facts<E>(a: Progress, reply_a: Reply<E>, b: Progress, reply_b: Reply<E>)
    requires
        alike(a, b),
        same_reply(reply_a, reply_b),
    ensures
        same_facts(a.learned(reply_a), b.learned(reply_b)),
{
}

proof fn lemma_alike_step<E>(
    a: Progress,
    reply_a: Reply<E>,
    after_a: Progress,
    b: Progress,
    reply_b: Reply<E>,
    after_b: Progress,
)
    requires
        alike(a, b),
        same_reply(reply_a, reply_b),
        a.steps_to(reply_a, after_a),
        b.steps_to(reply_b, after_b),
    ensures
        alike(after_a, after_b),
{
    lemma_alike_facts(a, reply_a, b, reply_b);
    lemma_alike_conditions(after_a, after_b, after_a.stage);
    lemma_alike_conditions(after_a, after_b, after_b.stage);
    law_rank_identifies_stage(after_a.stage, after_b.stage);
}

/// Conversions in the same state have the same work to do.
pub proof fn law_same_progress_same_work(a: Progress, b: Progress)
    requires
        same_progress(a, b),
        a.wf(),
        a.stage != Stage::Finished,
    ensures
        b.wf(),
        a.action_of(a.stage) == b.action_of(b.stage),
{
    lemma_alike_conditions(a, b, a.stage);
    lemma_alike_work(a, b);
}

proof fn lemma_alike_runs<E>(
    states_a: Seq<Progress>,
    replies_a: Seq<Reply<E>>,
    states_b: Seq<Progress>,
    replies_b: Seq<Reply<E>>,
    i: int,
)
    requires
        is_run(states_a, replies_a),
        is_run(states_b, replies_b),
        states_a[0].job == states_b[0].job,
        same_params_but_seed(states_a[0].params, states_b[0].params),
        states_a[0].name == states_b[0].name,
        0 <= i < states_a.len(),
        i < states_b.len(),
        forall|k: int|
            0 <= k < i ==> same_reply(#[trigger] replies_a[k], #[trigger] replies_b[k]),
    ensures
        alike(states_a[i], states_b[i]),
    decreases i,
{
    if i == 0 {
        lemma_alike_conditions(states_a[0], states_b[0], states_a[0].stage);
        lemma_alike_conditions(states_a[0], states_b[0], states_b[0].stage);
        law_rank_identifies_stage(states_a[0].stage, states_b[0].stage);
    } else {
        lemma_alike_runs(states_a, replies_a, states_b, replies_b, i - 1);
        assert(is_step(states_a, replies_a, i - 1));
        assert(is_step(states_b, replies_b, i - 1));
        assert(same_reply(replies_a[i - 1], replies_b[i - 1]));
        lemma_alike_step(
            states_a[i - 1],
            replies_a[i - 1],
            states_a[i],
            states_b[i - 1],
            replies_b[i - 1],
            states_b[i],
        );
    }
}

/// Identical input and settings give an identical course: two conversions with the same job,
/// parameters and file name, whose work is answered alike, go through the same states and do
/// the same work at each of them. Nothing else, such as the time of day, has a part in it.
pub proof fn law_same_input_same_course<E>(
    states_a: Seq<Progress>,
    replies_a: Seq<Reply<E>>,
    states_b: Seq<Progress>,
    replies_b: Seq<Reply<E>>,
    i: int,
)
    requires
        is_run(states_a, replies_a),
        is_run(states_b, replies_b),
        states_a[0].job == states_b[0].job,
        same_params(states_a[0].params, states_b[0].params),
        states_a[0].name == states_b[0].name,
        0 <= i < states_a.len(),
        i < states_b.len(),
        forall|k: int|
            0 <= k < i ==> same_reply(#[trigger] replies_a[k], #[trigger] replies_b[k]),
    ensures
        same_progress(states_a[i], states_b[i]),
        states_a[i].stage != Stage::Finished ==> states_a[i].action_of(states_a[i].stage)
            == states_b[i].action_of(states_b[i].stage),
{
    lemma_alike_runs(states_a, replies_a, states_b, replies_b, i);
    law_run_keeps_settings(states_a, replies_a, i);
    law_run_keeps_settings(states_b, replies_b, i);
    if states_a[i].stage != Stage::Finished {
        law_same_progress_same_work(states_a[i], states_b[i]);
    }
}

/// The seed has a part in the modification date alone: two conversions that differ in nothing
/// but the seed take up the same stages and do the same work at each, except that the texts of
/// the two dates may differ, in a form of equal length.
pub proof fn law_seed_decides_date_alone<E>(
    states_a: Seq<Progress>,
    replies_a: Seq<Reply<E>>,
    states_b: Seq<Progress>,
    replies_b: Seq<Reply<E>>,
    i: int,
)
    requires
        is_run(states_a, replies_a),
        is_run(states_b, replies_b),
        states_a[0].job == states_b[0].job,
        same_params_but_seed(states_a[0].params, states_b[0].params),
        states_a[0].name == states_b[0].name,
        0 <= i < states_a.len(),
        i < states_b.len(),
        forall|k: int|
            0 <= k < i ==> same_reply(#[trigger] replies_a[k], #[trigger] replies_b[k]),
    ensures
        alike(states_a[i], states_b[i]),
        states_a[i].stage != Stage::Finished && states_a[i].stage != Stage::SetModifyDate
            ==> states_a[i].action_of(states_a[i].stage) == states_b[i].action_of(
            states_b[i].stage,
        ),
        states_a[i].stage == Stage::SetModifyDate ==> {
            &&& states_a[i].action_of(Stage::SetModifyDate) matches ActionView::SetRootTag {
                tag: tag_a,
                value: TagValueView::Ascii(text_a),
            }
            &&& states_b[i].action_of(Stage::SetModifyDate) matches ActionView::SetRootTag {
                tag: tag_b,
                value: TagValueView::Ascii(text_b),
            }
            &&& tag_a == MODIFY_DATE
            &&& tag_b == MODIFY_DATE
            &&& text_a.len() == text_b.len()
        },
{
    lemma_alike_runs(states_a, replies_a, states_b, replies_b, i);
    law_run_keeps_settings(states_a, replies_a, i);
    if states_a[i].stage == Stage::SetModifyDate {
        law_date_layout(states_a[i].params.seed@, states_a[i].name);
        law_date_layout(states_b[i].params.seed@, states_b[i].name);
    } else if states_a[i].stage != Stage::Finished {
        lemma_alike_work(states_a[i], states_b[i]);
    }
}

/// Converting a file is opening it and then converting the open source: after its first stage,
/// which opens the file, the one does what the other does from its start, given the same
/// replies.
pub proof fn law_file_is_opened_source<E>(
    file_states: Seq<Progress>,
    file_replies: Seq<Reply<E>>,
    source_states: Seq<Progress>,
    source_replies: Seq<Reply<E>>,
    i: int,
)
    requires
        is_run(file_states, file_replies),
        is_run(source_states, source_replies),
        file_states[0].job == Job::ConvertFile,
        source_states[0].job == Job::ConvertSource,
        same_params(file_states[0].params, source_states[0].params),
        file_states[0].name == source_states[0].name,
        0 <= i < source_states.len(),
        i + 1 < file_states.len(),
        forall|k: int|
            #![trigger source_replies[k]]
            0 <= k < i ==> same_reply(file_replies[k + 1], source_replies[k]),
    ensures
        file_states[0].stage == Stage::OpenSource,
        alike(file_states[i + 1], source_states[i]),
        source_states[i].stage != Stage::Finished ==> file_states[i + 1].action_of(
            file_states[i + 1].stage,
        ) == source_states[i].action_of(source_states[i].stage),
    decreases i,
{
    let file = file_states[i + 1];
    let source = source_states[i];
    assert(file_states[0].applies(Stage::OpenSource));
    law_rank_identifies_stage(file_states[0].stage, Stage::OpenSource);
    assert(is_step(file_states, file_replies, i));
    if i == 0 {
        law_rank_identifies_stage(source.stage, Stage::OpenSource);
        lemma_alike_conditions(file, source, file.stage);
        lemma_alike_conditions(file, source, source.stage);
        law_rank_identifies_stage(file.stage, source.stage);
    } else {
        law_file_is_opened_source(
            file_states,
            file_replies,
            source_states,
            source_replies,
            i - 1,
        );
        assert(is_step(source_states, source_replies, i - 1));
        assert(same_reply(file_replies[i], source_replies[i - 1]));
        lemma_alike_step(
            file_states[i],
            file_replies[i],
            file,
            source_states[i - 1],
            source_replies[i - 1],
            source,
        );
    }
    law_run_keeps_settings(file_states, file_replies, i + 1);
    law_run_keeps_settings(source_states, source_replies, i);
    if source.stage != Stage::Finished {
        lemma_alike_work(file, source);
    }
}

/// Wherever a modification date is set, it follows from the seed and the file name alone: by the
/// same scheme in a conversion and in the replacement of a preview.
pub proof fn law_same_seed_same_date(a: Progress, b: Progress)
    requires
        a.params.seed@ == b.params.seed@,
        a.name == b.name,
    ensures
        a.action_of(Stage::SetModifyDate) == b.action_of(Stage::SetModifyDate),
        a.action_of(Stage::SetModifyDate) == (ActionView::SetRootTag {
            tag: MODIFY_DATE,
            value: TagValueView::Ascii(modify_date_text(a.params.seed@, a.name)),
        }),
{
}

/// The preview pyramid: a medium preview in frame 1 and a full preview in frame 2.
pub open spec fn is_pyramid_stage(stage: Stage) -> bool {
    stage == Stage::WriteMediumPreview || stage == Stage::FinishMediumPreview || stage
        == Stage::WriteFullPreview || stage == Stage::FinishFullPreview
}

/// Replacing a preview writes the same pyramid as a conversion does: with the same parameters,
/// whatever the seed, and an image to make previews from, the same frames are written in the
/// same way.
pub proof fn law_same_pyramid(a: Progress, b: Progress, stage: Stage)
    requires
        same_params_but_seed(a.params, b.params),
        a.has_preview_image(),
        b.has_preview_image(),
        is_pyramid_stage(stage) || stage == Stage::WriteThumbnail,
    ensures
        a.applies(stage) == b.applies(stage),
        a.action_of(stage) == b.action_of(stage),
{
}

} // verus!
