//! What a conversion asks for, told by its settings and by the replies that it got.
//!
//! The laws here look at a run from the outside, as a sequence of actions and replies.

use vstd::prelude::*;
use vstd::utf8::encode_utf8;

use crate::action::{ActionView, DecoderDirectory, Reply};
use crate::conversion::{answers, ends, Job, PreviewSearch, Progress};
use crate::image::{ImageFacts, RawPhotometricInterpretation, Rect};
use crate::laws::{
    is_run, is_step, law_reported_timestamp, law_run_is_ordered, law_run_keeps_settings,
    law_run_performs_what_applies, performed,
};
use crate::modify_date::{fnv1a_from, law_date_is_cut_from_hash, modify_date_text};
use crate::params::{Dim2, DngCompression, DngPhotometricConversion};
use crate::reembed::{expresses, refusal, ReembedOptions};
use crate::stage::{law_rank_identifies_stage, Stage};
use crate::tags::{law_carried_tags, law_credit_tags, TagValue, TagValueView};

verus! {

/// The work that the run asks for in the state with number `i`.
pub open spec fn work(states: Seq<Progress>, i: int) -> ActionView {
    states[i].action_of(states[i].stage)
}

/// The run asks for this work.
pub open spec fn asks(states: Seq<Progress>, action: ActionView) -> bool {
    exists|i: int|
        0 <= i < states.len() && states[i].stage != Stage::Finished && #[trigger] work(states, i)
            == action
}

/// The run asks for this work, and gets this reply.
pub open spec fn hears<E>(
    states: Seq<Progress>,
    replies: Seq<Reply<E>>,
    action: ActionView,
    reply: Reply<E>,
) -> bool {
    exists|i: int|
        0 <= i < replies.len() && #[trigger] work(states, i) == action && replies[i] == reply
}

/// The stage that asks for an action. Carried tags are copied in two stages, of which this is
/// the first.
spec fn home(action: ActionView) -> Stage {
    match action {
        ActionView::OpenSource => Stage::OpenSource,
        ActionView::StartCompression => Stage::StartCompression,
        ActionView::GetDecoder => Stage::GetDecoder,
        ActionView::ReadImage { .. } => Stage::ReadImage,
        ActionView::ReadMetadata { .. } => Stage::ReadMetadata,
        ActionView::OpenPreview => Stage::OpenPreview,
        ActionView::ApplyScaling => Stage::ApplyScaling,
        ActionView::Rotate { .. } => Stage::Rotate,
        ActionView::AdoptRotation { .. } => Stage::AdoptRotation,
        ActionView::CreateWriter { .. } => Stage::CreateWriter,
        ActionView::WriteRawImage { .. } => Stage::WriteRawImage,
        ActionView::FetchDirectory { directory } => match directory {
            DecoderDirectory::VirtualDngRawTags => Stage::FetchRawTags,
            DecoderDirectory::VirtualDngRootTags => Stage::FetchDngRootTags,
            DecoderDirectory::Root => Stage::FetchTiffRootTags,
        },
        ActionView::CopyRawTags => Stage::CopyRawTags,
        ActionView::FinishFrame { frame } => if frame == 0 {
            Stage::FinishRawImage
        } else if frame == 1 {
            Stage::FinishMediumPreview
        } else {
            Stage::FinishFullPreview
        },
        ActionView::FindPreview { .. } => Stage::FindPreview,
        ActionView::DevelopPreview => Stage::DevelopPreview,
        ActionView::WritePreview { frame, .. } => if frame == 1 {
            Stage::WriteMediumPreview
        } else {
            Stage::WriteFullPreview
        },
        ActionView::WriteThumbnail => Stage::WriteThumbnail,
        ActionView::LoadBaseTags => Stage::LoadBaseTags,
        ActionView::LoadMetadata => Stage::LoadMetadata,
        ActionView::CheckRootTag { .. } => Stage::CheckOrientation,
        ActionView::SetRootTag { tag, .. } => if tag == 0x0112 {
            Stage::SetOrientation
        } else if tag == 0x013b {
            Stage::SetArtist
        } else if tag == 0x0131 {
            Stage::SetSoftware
        } else {
            Stage::SetModifyDate
        },
        ActionView::CopyDngRootTags => Stage::CopyDngRootTags,
        ActionView::CopyTiffRootTags { .. } => Stage::CopyTiffRootTags,
        ActionView::FetchEntry { .. } => Stage::FetchMakerNoteSafety,
        ActionView::RemoveExifTag { .. } => Stage::RemoveMakerNotes,
        ActionView::FetchXpacket { .. } => Stage::FetchXpacket,
        ActionView::WriteXpacket => Stage::WriteXpacket,
        ActionView::JoinCompression => Stage::JoinCompression,
        ActionView::FetchOriginal => Stage::FetchOriginal,
        ActionView::WriteOriginal { .. } => Stage::WriteOriginal,
        ActionView::Close => Stage::Close,
        ActionView::ReadLastModified => Stage::ReadLastModified,
    }
}

proof fn lemma_home(state: Progress)
    requires
        state.stage != Stage::Finished,
    ensures
        home(state.action_of(state.stage)) == if state.stage == Stage::CarryCredits {
            Stage::CopyTiffRootTags
        } else {
            state.stage
        },
{
}

proof fn lemma_settings<E>(states: Seq<Progress>, replies: Seq<Reply<E>>)
    requires
        is_run(states, replies),
    ensures
        forall|i: int|
            0 <= i < states.len() ==> {
                &&& (#[trigger] states[i]).params == states[0].params
                &&& states[i].job == states[0].job
                &&& states[i].name == states[0].name
            },
{
    assert forall|i: int| 0 <= i < states.len() implies {
        &&& (#[trigger] states[i]).params == states[0].params
        &&& states[i].job == states[0].job
        &&& states[i].name == states[0].name
    } by {
        law_run_keeps_settings(states, replies, i);
    }
}

/// A finished run asks for the work of a stage exactly if the stage applies.
proof fn lemma_asks_iff<E>(
    states: Seq<Progress>,
    replies: Seq<Reply<E>>,
    stage: Stage,
    action: ActionView,
)
    requires
        is_run(states, replies),
        states.last().stage == Stage::Finished,
        home(action) == stage,
        stage != Stage::CopyTiffRootTags,
        forall|i: int|
            0 <= i < states.len() && (#[trigger] states[i]).stage == stage ==> states[i].action_of(
                stage,
            ) == action,
    ensures
        asks(states, action) <==> states.last().applies(stage),
        performed(states, stage) <==> states.last().applies(stage),
{
    law_rank_identifies_stage(stage, Stage::Finished);
    law_run_performs_what_applies(states, replies, stage);
    if asks(states, action) {
        let i = choose|i: int|
            0 <= i < states.len() && states[i].stage != Stage::Finished && #[trigger] work(
                states,
                i,
            ) == action;
        lemma_home(states[i]);
    }
    if performed(states, stage) {
        let i = choose|i: int| 0 <= i < states.len() && (#[trigger] states[i]).stage == stage;
        assert(work(states, i) == action);
    }
}

/// The stage got this reply before the state with number `j`.
spec fn told<E>(
    states: Seq<Progress>,
    replies: Seq<Reply<E>>,
    j: int,
    stage: Stage,
    reply: Reply<E>,
) -> bool {
    exists|k: int| 0 <= k < j && (#[trigger] states[k]).stage == stage && replies[k] == reply
}

proof fn lemma_told_step<E>(
    states: Seq<Progress>,
    replies: Seq<Reply<E>>,
    j: int,
    stage: Stage,
    reply: Reply<E>,
)
    requires
        is_run(states, replies),
        0 < j < states.len(),
    ensures
        told(states, replies, j, stage, reply) <==> told(states, replies, j - 1, stage, reply) || (
        states[j - 1].stage == stage && replies[j - 1] == reply),
        states[j - 1].stage == stage ==> !told(states, replies, j - 1, stage, reply),
{
    if told(states, replies, j - 1, stage, reply) {
        let k = choose|k: int|
            0 <= k < j - 1 && (#[trigger] states[k]).stage == stage && replies[k] == reply;
        law_run_is_ordered(states, replies, k, j - 1);
        assert(0 <= k < j && states[k].stage == stage);
    }
    if states[j - 1].stage == stage && replies[j - 1] == reply {
        assert(0 <= j - 1 < j);
    }
}

proof fn lemma_told_is_heard<E>(
    states: Seq<Progress>,
    replies: Seq<Reply<E>>,
    stage: Stage,
    action: ActionView,
    reply: Reply<E>,
)
    requires
        is_run(states, replies),
        home(action) == stage,
        stage != Stage::CopyTiffRootTags,
        forall|i: int|
            0 <= i < states.len() && (#[trigger] states[i]).stage == stage ==> states[i].action_of(
                stage,
            ) == action,
    ensures
        told(states, replies, replies.len() as int, stage, reply) <==> hears(
            states,
            replies,
            action,
            reply,
        ),
{
    let n = replies.len() as int;
    if told(states, replies, n, stage, reply) {
        let k = choose|k: int|
            0 <= k < n && (#[trigger] states[k]).stage == stage && replies[k] == reply;
        assert(work(states, k) == action);
    }
    if hears(states, replies, action, reply) {
        let i = choose|i: int|
            0 <= i < replies.len() && #[trigger] work(states, i) == action && replies[i] == reply;
        assert(is_step(states, replies, i));
        lemma_home(states[i]);
        assert(states[i].stage == stage);
    }
}

/// What a run of a conversion knows of a preview image, by the replies before state `j`.
proof fn lemma_preview_told<E>(states: Seq<Progress>, replies: Seq<Reply<E>>, j: int)
    requires
        is_run(states, replies),
        states[0].job != Job::Reembed,
        0 <= j < states.len(),
    ensures
        states[j].facts.preview == PreviewSearch::Found <==> told(
            states,
            replies,
            j,
            Stage::FindPreview,
            Reply::Present(true),
        ),
        states[j].facts.preview == PreviewSearch::Absent <==> told(
            states,
            replies,
            j,
            Stage::FindPreview,
            Reply::Present(false),
        ),
        states[j].facts.developed <==> told(
            states,
            replies,
            j,
            Stage::DevelopPreview,
            Reply::Present(true),
        ),
        states[j].stage.rank() <= Stage::FindPreview.rank() ==> states[j].facts.preview
            == PreviewSearch::Pending,
    decreases j,
{
    if j > 0 {
        lemma_preview_told(states, replies, j - 1);
        assert(is_step(states, replies, j - 1));
        law_run_keeps_settings(states, replies, j - 1);
        lemma_told_step(states, replies, j, Stage::FindPreview, Reply::Present(true));
        lemma_told_step(states, replies, j, Stage::FindPreview, Reply::Present(false));
        lemma_told_step(states, replies, j, Stage::DevelopPreview, Reply::Present(true));
        assert(states[j - 1].stage != Stage::OpenPreview);
    }
}

/// The replacement of a preview has its image as soon as the edited preview is open.
proof fn lemma_reembed_preview<E>(states: Seq<Progress>, replies: Seq<Reply<E>>, j: int)
    requires
        is_run(states, replies),
        states[0].job == Job::Reembed,
        0 <= j < states.len(),
    ensures
        states[j].facts.preview == if states[j].stage.rank() > Stage::OpenPreview.rank() {
            PreviewSearch::Found
        } else {
            PreviewSearch::Pending
        },
    decreases j,
{
    law_run_keeps_settings(states, replies, j);
    if j > 0 {
        lemma_reembed_preview(states, replies, j - 1);
        assert(is_step(states, replies, j - 1));
        law_run_keeps_settings(states, replies, j - 1);
        assert(states[j].applies(Stage::OpenPreview));
        law_rank_identifies_stage(states[j - 1].stage, Stage::OpenPreview);
    } else {
        assert(states[0].applies(Stage::OpenSource));
        law_rank_identifies_stage(states[0].stage, Stage::OpenSource);
    }
}

/// The decoded image is remembered.
proof fn lemma_image_remembered<E>(
    states: Seq<Progress>,
    replies: Seq<Reply<E>>,
    k: int,
    j: int,
    image: ImageFacts,
)
    requires
        is_run(states, replies),
        0 <= k < j < states.len(),
        states[k].stage == Stage::ReadImage,
        replies[k] == Reply::<E>::Image(image),
    ensures
        states[j].facts.image == Some(image),
    decreases j,
{
    assert(is_step(states, replies, j - 1));
    if k < j - 1 {
        lemma_image_remembered(states, replies, k, j - 1, image);
        law_run_is_ordered(states, replies, k, j - 1);
    }
}

/// The tags of the input's root directory are remembered.
proof fn lemma_root_remembered<E>(
    states: Seq<Progress>,
    replies: Seq<Reply<E>>,
    k: int,
    j: int,
    tags: Option<Vec<u16>>,
)
    requires
        is_run(states, replies),
        0 <= k < j < states.len(),
        states[k].stage == Stage::FetchTiffRootTags,
        replies[k] == Reply::<E>::Tags(tags),
    ensures
        states[j].facts.tiff_root == tags,
    decreases j,
{
    assert(is_step(states, replies, j - 1));
    if k < j - 1 {
        lemma_root_remembered(states, replies, k, j - 1, tags);
        law_run_is_ordered(states, replies, k, j - 1);
    }
}

/// The reply with number `k` is what the decoder said of the raw image.
proof fn lemma_image_reply<E>(
    states: Seq<Progress>,
    replies: Seq<Reply<E>>,
    k: int,
    image: ImageFacts,
)
    requires
        is_run(states, replies),
        0 <= k < replies.len(),
        replies[k] == Reply::<E>::Image(image),
    ensures
        states[k].stage == Stage::ReadImage,
{
    assert(is_step(states, replies, k));
}

proof fn lemma_tags_reply<E>(
    states: Seq<Progress>,
    replies: Seq<Reply<E>>,
    k: int,
    tags: Option<Vec<u16>>,
)
    requires
        is_run(states, replies),
        0 <= k < replies.len(),
        replies[k] == Reply::<E>::Tags(tags),
    ensures
        states[k].stage == Stage::FetchTiffRootTags,
{
    assert(is_step(states, replies, k));
}

/// The raw image is written as it was asked for: with the crop, the compression and the predictor
/// of the settings, and into the root directory exactly where no thumbnail was wanted. The file
/// has the version that was asked for, and every look into the input is at the image asked for.
pub proof fn law_settings_reach_the_file<E>(
    states: Seq<Progress>,
    replies: Seq<Reply<E>>,
    j: int,
)
    requires
        is_run(states, replies),
        0 <= j < states.len(),
        states[j].stage != Stage::Finished,
    ensures
        match work(states, j) {
            ActionView::WriteRawImage { on_root, crop, compression, predictor, .. } => {
                &&& on_root <==> !states[0].params.thumbnail
                &&& crop == states[0].params.crop
                &&& compression == states[0].params.compression
                &&& predictor == states[0].params.predictor
            },
            ActionView::CreateWriter { version } => version == states[0].params.dng_version@,
            ActionView::ReadImage { index } => index == states[0].params.index,
            ActionView::ReadMetadata { index } => index == states[0].params.index,
            ActionView::FindPreview { index } => index == states[0].params.index,
            ActionView::FetchXpacket { index } => index == states[0].params.index,
            _ => true,
        },
{
    lemma_settings(states, replies);
    lemma_home(states[j]);
}

/// Every preview has the quality of the settings; that of frame 1 fits the medium box, that of
/// frame 2 the full box, and there is no other. Once it is written its frame is finished, and
/// the full preview comes right after the medium one.
pub proof fn law_previews_as_asked<E>(states: Seq<Progress>, replies: Seq<Reply<E>>, j: int)
    requires
        is_run(states, replies),
        0 < j < states.len(),
    ensures
        states[j].stage != Stage::Finished ==> match work(states, j) {
            ActionView::WritePreview { frame, quality, bounds } => {
                &&& quality == states[0].params.jpeg_quality
                &&& frame == 1 && bounds == states[0].params.preview_medium || frame == 2 && bounds
                    == states[0].params.preview_full && work(states, j - 1) == (
                ActionView::FinishFrame { frame: 1 })
            },
            ActionView::FinishFrame { frame } => frame == 0 || (frame == 1 || frame == 2) && (work(
                states,
                j - 1,
            ) matches ActionView::WritePreview { frame: written, .. } && written == frame),
            _ => true,
        },
        work(states, j - 1) matches ActionView::WritePreview { frame: written, .. }
            ==> states[j].stage != Stage::Finished && work(states, j) == (
        ActionView::FinishFrame { frame: written }),
{
    lemma_settings(states, replies);
    assert(is_step(states, replies, j - 1));
    law_run_keeps_settings(states, replies, j - 1);
    law_run_keeps_settings(states, replies, j);
    lemma_home(states[j - 1]);
    if states[j].stage != Stage::Finished {
        lemma_home(states[j]);
    }
    let before = states[j - 1];
    let after = states[j];
    if before.stage == Stage::WriteMediumPreview {
        assert(after.applies(Stage::FinishMediumPreview));
        law_rank_identifies_stage(after.stage, Stage::FinishMediumPreview);
    }
    if before.stage == Stage::WriteFullPreview {
        assert(after.applies(Stage::FinishFullPreview));
        law_rank_identifies_stage(after.stage, Stage::FinishFullPreview);
    }
    if after.stage == Stage::FinishMediumPreview {
        assert(after.applies(Stage::WriteMediumPreview));
        law_rank_identifies_stage(before.stage, Stage::WriteMediumPreview);
    }
    if after.stage == Stage::WriteFullPreview {
        assert(after.applies(Stage::FinishMediumPreview));
        law_rank_identifies_stage(before.stage, Stage::FinishMediumPreview);
    }
    if after.stage == Stage::FinishFullPreview {
        assert(after.applies(Stage::WriteFullPreview));
        law_rank_identifies_stage(before.stage, Stage::WriteFullPreview);
    }
}

/// A rotation is by the width that the decoder told, over the active area if there is one and
/// else over the whole image, and with a further quarter turn exactly if the camera has the hint
/// for it. What is taken for the raw image afterwards has the size that came out of the
/// rotation, three samples per pixel in the range 0 to 1, and no border.
pub proof fn law_rotation_as_told<E>(
    states: Seq<Progress>,
    replies: Seq<Reply<E>>,
    k: int,
    j: int,
    image: ImageFacts,
)
    requires
        is_run(states, replies),
        0 <= k < replies.len(),
        replies[k] == Reply::<E>::Image(image),
        0 < j < states.len(),
        states[j].stage != Stage::Finished,
    ensures
        match work(states, j) {
            ActionView::Rotate { area, width, quarter_turn } => {
                &&& quarter_turn <==> exists|h: int|
                    0 <= h < image.hints@.len() && (#[trigger] image.hints@[h])@
                        == "fuji_rotate_90cw"@
                &&& width == image.fuji_rotation_width
                &&& image.active_area matches Some(active) ==> area == active
                &&& image.active_area is None ==> area == (Rect { x: 0, y: 0, size: image.size })
                &&& work(states, j - 1) == ActionView::ApplyScaling
            },
            ActionView::AdoptRotation { size, active_area, cpp, whitelevel, interpretation } => {
                &&& work(states, j - 1) is Rotate
                &&& replies[j - 1] == Reply::<E>::Rotated(size)
                &&& active_area is None
                &&& cpp == 3
                &&& whitelevel == seq![1u32, 1u32, 1u32]
                &&& interpretation == RawPhotometricInterpretation::LinearRaw
            },
            _ => true,
        },
{
    lemma_image_reply(states, replies, k, image);
    lemma_home(states[j]);
    let after = states[j];
    if after.stage == Stage::Rotate || after.stage == Stage::AdoptRotation {
        if j < k {
            law_run_is_ordered(states, replies, j, k);
        }
        lemma_image_remembered(states, replies, k, j, image);
        law_run_keeps_settings(states, replies, j);
        assert(is_step(states, replies, j - 1));
        lemma_home(states[j - 1]);
        let before = states[j - 1];
        if after.stage == Stage::Rotate {
            assert(after.applies(Stage::ApplyScaling));
            law_rank_identifies_stage(before.stage, Stage::ApplyScaling);
        } else {
            assert(after.applies(Stage::Rotate));
            law_rank_identifies_stage(before.stage, Stage::Rotate);
        }
    }
}

/// The camera of the image has one of the hints for a diagonally mounted sensor.
pub open spec fn mounted_diagonally(image: ImageFacts) -> bool {
    exists|h: int|
        0 <= h < image.hints@.len() && ((#[trigger] image.hints@[h])@ == "fuji_rotation"@
            || image.hints@[h]@ == "fuji_rotation_alt"@)
}

proof fn lemma_rotating(state: Progress, image: ImageFacts)
    requires
        state.facts.image == Some(image),
    ensures
        state.rotating() <==> state.job != Job::Reembed && mounted_diagonally(image),
{
    if state.rotating() {
        if image.has_hint("fuji_rotation"@) {
            let h = choose|h: int|
                0 <= h < image.hints@.len() && (#[trigger] image.hints@[h])@ == "fuji_rotation"@;
            assert(image.hints@[h]@ == "fuji_rotation"@);
        } else {
            let h = choose|h: int|
                0 <= h < image.hints@.len() && (#[trigger] image.hints@[h])@
                    == "fuji_rotation_alt"@;
            assert(image.hints@[h]@ == "fuji_rotation_alt"@);
        }
    }
}

/// A finished conversion has rotated the raw image exactly if its sensor was mounted diagonally,
/// and has scaled its samples exactly for that or on request. Replacing a preview does neither.
pub proof fn law_rotated_when_hinted<E>(
    states: Seq<Progress>,
    replies: Seq<Reply<E>>,
    k: int,
    image: ImageFacts,
)
    requires
        is_run(states, replies),
        states.last().stage == Stage::Finished,
        0 <= k < replies.len(),
        replies[k] == Reply::<E>::Image(image),
    ensures
        (exists|j: int|
            0 <= j < states.len() && states[j].stage != Stage::Finished && #[trigger] work(
                states,
                j,
            ) is Rotate) <==> states[0].job != Job::Reembed && mounted_diagonally(image),
        (exists|j: int|
            0 <= j < states.len() && states[j].stage != Stage::Finished && #[trigger] work(
                states,
                j,
            ) is AdoptRotation) <==> states[0].job != Job::Reembed && mounted_diagonally(image),
        asks(states, ActionView::ApplyScaling) <==> states[0].job != Job::Reembed && (
        mounted_diagonally(image) || states[0].params.apply_scaling),
{
    let n = states.len() - 1;
    lemma_settings(states, replies);
    lemma_image_reply(states, replies, k, image);
    lemma_image_remembered(states, replies, k, n, image);
    lemma_rotating(states[n], image);
    lemma_asks_iff(states, replies, Stage::ApplyScaling, ActionView::ApplyScaling);
    law_run_performs_what_applies(states, replies, Stage::Rotate);
    law_run_performs_what_applies(states, replies, Stage::AdoptRotation);
    assert forall|j: int|
        0 <= j < states.len() && states[j].stage != Stage::Finished implies (#[trigger] work(
        states,
        j,
    ) is Rotate <==> states[j].stage == Stage::Rotate) && (work(states, j) is AdoptRotation
        <==> states[j].stage == Stage::AdoptRotation) by {
        lemma_home(states[j]);
    }
    if performed(states, Stage::Rotate) {
        let j = choose|j: int|
            0 <= j < states.len() && (#[trigger] states[j]).stage == Stage::Rotate;
        assert(work(states, j) is Rotate);
    }
    if performed(states, Stage::AdoptRotation) {
        let j = choose|j: int|
            0 <= j < states.len() && (#[trigger] states[j]).stage == Stage::AdoptRotation;
        assert(work(states, j) is AdoptRotation);
    }
    assert(forall|j: int|
        0 <= j < states.len() && states[j].stage != Stage::Finished && #[trigger] work(
            states,
            j,
        ) is Rotate ==> performed(states, Stage::Rotate));
    assert(forall|j: int|
        0 <= j < states.len() && states[j].stage != Stage::Finished && #[trigger] work(
            states,
            j,
        ) is AdoptRotation ==> performed(states, Stage::AdoptRotation));
}

/// The raw image is written as a linear one exactly if that was asked for, by the flag or by the
/// conversion setting, and its data is linear: as the decoder delivered it, or because it was
/// rotated. Otherwise it keeps its original representation.
pub proof fn law_linear_when_possible<E>(
    states: Seq<Progress>,
    replies: Seq<Reply<E>>,
    k: int,
    j: int,
    image: ImageFacts,
)
    requires
        is_run(states, replies),
        0 <= k < replies.len(),
        replies[k] == Reply::<E>::Image(image),
        0 <= j < states.len(),
        states[j].stage != Stage::Finished,
    ensures
        work(states, j) matches ActionView::WriteRawImage { photometric, .. } ==> (photometric
            == DngPhotometricConversion::Linear <==> (states[0].params.linear
            || states[0].params.photometric_conversion == DngPhotometricConversion::Linear) && (
        image.photometric == RawPhotometricInterpretation::LinearRaw || states[0].job
            != Job::Reembed && mounted_diagonally(image))),
{
    lemma_home(states[j]);
    if states[j].stage == Stage::WriteRawImage {
        lemma_settings(states, replies);
        lemma_image_reply(states, replies, k, image);
        if j < k {
            law_run_is_ordered(states, replies, j, k);
        }
        lemma_image_remembered(states, replies, k, j, image);
        lemma_rotating(states[j], image);
    }
}

/// One step: what is offered is taken up next, and nothing is taken up that was not offered.
proof fn lemma_offer_step<E>(before: Progress, reply: Reply<E>, after: Progress)
    requires
        answers(before.stage, reply),
        !ends(before.stage, reply),
        before.applies(before.stage),
        before.steps_to(reply, after),
    ensures
        after.stage == Stage::CopyRawTags <==> before.stage == Stage::FetchRawTags && reply
            == Reply::<E>::Present(true),
        after.stage == Stage::CopyDngRootTags <==> before.stage == Stage::FetchDngRootTags && reply
            == Reply::<E>::Present(true),
        after.stage == Stage::WriteXpacket <==> before.stage == Stage::FetchXpacket && reply
            == Reply::<E>::Present(true),
        after.stage == Stage::SetOrientation <==> before.stage == Stage::CheckOrientation && reply
            == Reply::<E>::Present(false),
        after.stage == Stage::CopyTiffRootTags <==> before.stage == Stage::FetchTiffRootTags
            && reply is Tags && reply->Tags_0 is Some,
        after.stage == Stage::RemoveMakerNotes <==> before.stage == Stage::FetchMakerNoteSafety && (
        reply matches Reply::Entry(Some(TagValue::Short(v))) && !(v@.len() > 0 && v@[0] == 1)),
        before.stage == Stage::FindPreview && reply == Reply::<E>::Present(false) ==> after.stage
            == Stage::DevelopPreview,
{
    assert(after.applies(Stage::FetchRawTags));
    assert(after.applies(Stage::FetchDngRootTags));
    assert(after.applies(Stage::FetchXpacket));
    assert(after.applies(Stage::CheckOrientation));
    assert(after.applies(Stage::FetchTiffRootTags));
    assert(after.applies(Stage::FetchMakerNoteSafety) == after.converting());
    law_rank_identifies_stage(before.stage, Stage::FetchRawTags);
    law_rank_identifies_stage(before.stage, Stage::FetchDngRootTags);
    law_rank_identifies_stage(before.stage, Stage::FetchXpacket);
    law_rank_identifies_stage(before.stage, Stage::CheckOrientation);
    law_rank_identifies_stage(before.stage, Stage::FetchTiffRootTags);
    law_rank_identifies_stage(before.stage, Stage::FetchMakerNoteSafety);
    law_rank_identifies_stage(after.stage, Stage::CopyRawTags);
    law_rank_identifies_stage(after.stage, Stage::CopyDngRootTags);
    law_rank_identifies_stage(after.stage, Stage::WriteXpacket);
    law_rank_identifies_stage(after.stage, Stage::SetOrientation);
    law_rank_identifies_stage(after.stage, Stage::CopyTiffRootTags);
    law_rank_identifies_stage(after.stage, Stage::RemoveMakerNotes);
    law_rank_identifies_stage(after.stage, Stage::DevelopPreview);
    if before.stage == Stage::FetchRawTags {
        assert(after.applies(Stage::CopyRawTags) == after.facts.raw_tags);
    }
    if before.stage == Stage::FetchDngRootTags {
        assert(after.applies(Stage::CopyDngRootTags) == after.facts.dng_root_tags);
    }
    if before.stage == Stage::FetchXpacket {
        assert(after.applies(Stage::WriteXpacket) == after.facts.xpacket);
    }
    if before.stage == Stage::CheckOrientation {
        assert(after.applies(Stage::SetOrientation) == !after.facts.has_orientation);
    }
    if before.stage == Stage::FetchTiffRootTags {
        assert(after.applies(Stage::CopyTiffRootTags) == (after.facts.tiff_root is Some));
    }
    if before.stage == Stage::FetchMakerNoteSafety {
        let entry = reply->Entry_0;
        assert(after.applies(Stage::RemoveMakerNotes) == (entry matches Some(TagValue::Short(v))
            && !(v@.len() > 0 && v@[0] == 1)));
    }
    if before.stage == Stage::FindPreview && reply == Reply::<E>::Present(false) {
        assert(after.applies(Stage::DevelopPreview));
    }
}

/// What the decoder offers is copied, at once, and nothing else is: the tags of a directory and
/// an XMP packet right after it said that there are any, in a conversion as well as in the
/// replacement of a preview; a preview is developed right after none was found; and the maker
/// note is removed right after the entry on its safety was found to hold anything but one.
pub proof fn law_offers_are_taken<E>(states: Seq<Progress>, replies: Seq<Reply<E>>, j: int)
    requires
        is_run(states, replies),
        0 < j < states.len(),
    ensures
        states[j].stage != Stage::Finished && work(states, j) == ActionView::CopyRawTags <==> work(
            states,
            j - 1,
        ) == (ActionView::FetchDirectory { directory: DecoderDirectory::VirtualDngRawTags })
            && replies[j - 1] == Reply::<E>::Present(true),
        states[j].stage != Stage::Finished && work(states, j) == ActionView::CopyDngRootTags
            <==> work(states, j - 1) == (ActionView::FetchDirectory {
            directory: DecoderDirectory::VirtualDngRootTags,
        }) && replies[j - 1] == Reply::<E>::Present(true),
        states[j].stage != Stage::Finished && work(states, j) == ActionView::WriteXpacket <==> work(
            states,
            j - 1,
        ) is FetchXpacket && replies[j - 1] == Reply::<E>::Present(true),
        states[j].stage != Stage::Finished && work(states, j) == ActionView::DevelopPreview
            <==> work(states, j - 1) is FindPreview && replies[j - 1] == Reply::<E>::Present(false),
        states[j].stage != Stage::Finished && work(states, j) is RemoveExifTag <==> work(
            states,
            j - 1,
        ) is FetchEntry && (replies[j - 1] matches Reply::Entry(Some(TagValue::Short(v))) && !(
        v@.len() > 0 && v@[0] == 1)),
        work(states, j - 1) is FetchEntry ==> work(states, j - 1) == (ActionView::FetchEntry {
            directory: DecoderDirectory::VirtualDngRootTags,
            tag: 0xc635,
        }),
        states[j].stage != Stage::Finished && work(states, j) is RemoveExifTag ==> work(states, j)
            == (ActionView::RemoveExifTag { tag: 0x927c }),
{
    assert(is_step(states, replies, j - 1));
    law_run_keeps_settings(states, replies, j - 1);
    law_run_keeps_settings(states, replies, j);
    lemma_offer_step(states[j - 1], replies[j - 1], states[j]);
    lemma_home(states[j - 1]);
    if states[j].stage != Stage::Finished {
        lemma_home(states[j]);
    }
    if states[j].stage == Stage::DevelopPreview {
        lemma_preview_told(states, replies, j - 1);
        lemma_preview_told(states, replies, j);
    }
}

/// In every finished run, whether a raw file was converted or a preview replaced, the tags of each
/// DNG directory and the XMP packet were copied exactly if the decoder said that there are any.
pub proof fn law_finished_run_took_offers<E>(states: Seq<Progress>, replies: Seq<Reply<E>>)
    requires
        is_run(states, replies),
        states.last().stage == Stage::Finished,
    ensures
        asks(states, ActionView::CopyRawTags) <==> hears(
            states,
            replies,
            ActionView::FetchDirectory { directory: DecoderDirectory::VirtualDngRawTags },
            Reply::Present(true),
        ),
        asks(states, ActionView::CopyDngRootTags) <==> hears(
            states,
            replies,
            ActionView::FetchDirectory { directory: DecoderDirectory::VirtualDngRootTags },
            Reply::Present(true),
        ),
        asks(states, ActionView::WriteXpacket) <==> hears(
            states,
            replies,
            ActionView::FetchXpacket { index: states[0].params.index },
            Reply::Present(true),
        ),
{
    let raw = ActionView::FetchDirectory { directory: DecoderDirectory::VirtualDngRawTags };
    let root = ActionView::FetchDirectory { directory: DecoderDirectory::VirtualDngRootTags };
    let xpacket = ActionView::FetchXpacket { index: states[0].params.index };
    assert(states[0].applies(Stage::GetDecoder));
    assert forall|j: int| 0 < j < states.len() implies {
        &&& #[trigger] taken_up(states, replies, raw, ActionView::CopyRawTags, j)
        &&& taken_up(states, replies, root, ActionView::CopyDngRootTags, j)
        &&& taken_up(states, replies, xpacket, ActionView::WriteXpacket, j)
    } by {
        law_offers_are_taken(states, replies, j);
        assert(is_step(states, replies, j - 1));
        law_settings_reach_the_file(states, replies, j - 1);
    }
    assert forall|j: int| 0 < j < states.len() implies #[trigger] taken_up(
        states,
        replies,
        root,
        ActionView::CopyDngRootTags,
        j,
    ) by {
        assert(taken_up(states, replies, raw, ActionView::CopyRawTags, j));
    }
    assert forall|j: int| 0 < j < states.len() implies #[trigger] taken_up(
        states,
        replies,
        xpacket,
        ActionView::WriteXpacket,
        j,
    ) by {
        assert(taken_up(states, replies, raw, ActionView::CopyRawTags, j));
    }
    lemma_offer_taken(states, replies, raw, ActionView::CopyRawTags);
    lemma_offer_taken(states, replies, root, ActionView::CopyDngRootTags);
    lemma_offer_taken(states, replies, xpacket, ActionView::WriteXpacket);
}

/// The run takes something up in state `j` exactly if it was offered in the state before.
spec fn taken_up<E>(
    states: Seq<Progress>,
    replies: Seq<Reply<E>>,
    offer: ActionView,
    taken: ActionView,
    j: int,
) -> bool {
    states[j].stage != Stage::Finished && work(states, j) == taken <==> work(states, j - 1) == offer
        && replies[j - 1] == Reply::<E>::Present(true)
}

proof fn lemma_offer_taken<E>(
    states: Seq<Progress>,
    replies: Seq<Reply<E>>,
    offer: ActionView,
    taken: ActionView,
)
    requires
        states.len() == replies.len() + 1,
        work(states, 0) != taken,
        forall|j: int|
            0 < j < states.len() ==> #[trigger] taken_up(states, replies, offer, taken, j),
    ensures
        asks(states, taken) <==> hears(states, replies, offer, Reply::Present(true)),
{
    if asks(states, taken) {
        let i = choose|i: int|
            0 <= i < states.len() && states[i].stage != Stage::Finished && #[trigger] work(
                states,
                i,
            ) == taken;
        assert(taken_up(states, replies, offer, taken, i));
        assert(work(states, i - 1) == offer);
    }
    if hears(states, replies, offer, Reply::Present(true)) {
        let i = choose|i: int|
            0 <= i < replies.len() && #[trigger] work(states, i) == offer && replies[i] == Reply::<
                E,
            >::Present(true);
        assert(taken_up(states, replies, offer, taken, i + 1));
        assert(work(states, i + 1) == taken);
    }
}

/// The orientation that the decoder told is set right after the root directory was found to have
/// none, and never else.
pub proof fn law_orientation_as_told<E>(
    states: Seq<Progress>,
    replies: Seq<Reply<E>>,
    k: int,
    j: int,
    image: ImageFacts,
)
    requires
        is_run(states, replies),
        0 <= k < replies.len(),
        replies[k] == Reply::<E>::Image(image),
        0 < j < states.len(),
    ensures
        work(states, j - 1) is CheckRootTag ==> work(states, j - 1) == (ActionView::CheckRootTag {
            tag: 0x0112,
        }),
        work(states, j - 1) is CheckRootTag && replies[j - 1] == Reply::<E>::Present(false)
            ==> states[j].stage != Stage::Finished && work(states, j) == (ActionView::SetRootTag {
            tag: 0x0112,
            value: TagValueView::Short(seq![image.orientation]),
        }),
        states[j].stage != Stage::Finished && (work(states, j) matches ActionView::SetRootTag {
            tag,
            ..
        } && tag == 0x0112) ==> work(states, j - 1) is CheckRootTag && replies[j - 1] == Reply::<
            E,
        >::Present(false),
{
    assert(is_step(states, replies, j - 1));
    law_run_keeps_settings(states, replies, j - 1);
    lemma_offer_step(states[j - 1], replies[j - 1], states[j]);
    lemma_home(states[j - 1]);
    if states[j].stage != Stage::Finished {
        lemma_home(states[j]);
    }
    if states[j].stage == Stage::SetOrientation {
        lemma_image_reply(states, replies, k, image);
        if j < k {
            law_run_is_ordered(states, replies, j, k);
        }
        lemma_image_remembered(states, replies, k, j, image);
    }
}

/// Right after the decoder told the tags of the input's own root directory, exactly the CinemaDNG
/// tags among them are copied. A run copies tags of that directory at most once more, when it
/// replaces a preview: exactly artist, software and modification date. No other directory is
/// fetched in between.
pub proof fn law_root_tags_as_told<E>(
    states: Seq<Progress>,
    replies: Seq<Reply<E>>,
    k: int,
    j: int,
    tags: Option<Vec<u16>>,
    tag: u16,
)
    requires
        is_run(states, replies),
        0 <= k < replies.len(),
        replies[k] == Reply::<E>::Tags(tags),
        0 <= j < states.len(),
        states[j].stage != Stage::Finished,
    ensures
        work(states, k) == (ActionView::FetchDirectory { directory: DecoderDirectory::Root }),
        j == k + 1 && tags is Some ==> work(states, j) is CopyTiffRootTags,
        j == k + 1 && tags is None ==> !(work(states, j) is CopyTiffRootTags),
        work(states, j) matches ActionView::CopyTiffRootTags { tags: copied } ==> {
            &&& k < j
            &&& tags is Some
            &&& j == k + 1 ==> (copied.contains(tag) <==> tags->0@.contains(tag) && (tag == 51043
                || tag == 51044 || tag == 51058))
            &&& j != k + 1 ==> states[0].job == Job::Reembed && (copied.contains(tag)
                <==> tags->0@.contains(tag) && (tag == 0x013b || tag == 0x0131 || tag == 0x0132))
        },
        j > k ==> !(work(states, j) is FetchDirectory),
{
    lemma_settings(states, replies);
    lemma_tags_reply(states, replies, k, tags);
    assert(is_step(states, replies, k));
    law_run_keeps_settings(states, replies, k);
    law_run_keeps_settings(states, replies, j);
    lemma_offer_step(states[k], replies[k], states[k + 1]);
    lemma_home(states[j]);
    lemma_home(states[k]);
    if j > k {
        law_run_is_ordered(states, replies, k, j);
        lemma_root_remembered(states, replies, k, j, tags);
        if tags is Some {
            law_carried_tags(tags->0@, tag);
            law_credit_tags(tags->0@, tag);
        }
        if states[j].stage == Stage::CopyTiffRootTags && j > k + 1 {
            law_run_is_ordered(states, replies, k + 1, j);
        }
    } else if j < k {
        law_run_is_ordered(states, replies, j, k);
    }
}

/// A finished run has opened the input unless it was open, and compressed it exactly if a raw file
/// is to be embedded, under its own name. The edited preview is opened, an embedded original looked
/// for, the safety of the maker note asked for and the timestamp read by exactly the jobs that need
/// them.
pub proof fn law_finished_work_of_job<E>(states: Seq<Progress>, replies: Seq<Reply<E>>)
    requires
        is_run(states, replies),
        states.last().stage == Stage::Finished,
    ensures
        asks(states, ActionView::OpenSource) <==> states[0].job != Job::ConvertSource,
        asks(states, ActionView::StartCompression) <==> states[0].job != Job::Reembed
            && states[0].params.embedded,
        asks(states, ActionView::JoinCompression) <==> states[0].job != Job::Reembed
            && states[0].params.embedded,
        asks(states, ActionView::FetchOriginal) <==> states[0].job == Job::Reembed
            && states[0].params.embedded,
        states[0].job != Job::Reembed ==> (asks(
            states,
            ActionView::WriteOriginal { name: states[0].name },
        ) <==> states[0].params.embedded),
        asks(states, ActionView::OpenPreview) <==> states[0].job == Job::Reembed,
        asks(
            states,
            ActionView::FetchEntry {
                directory: DecoderDirectory::VirtualDngRootTags,
                tag: 0xc635,
            },
        ) <==> states[0].job != Job::Reembed,
        asks(states, ActionView::ReadLastModified) <==> states[0].job != Job::Reembed,
{
    lemma_settings(states, replies);
    lemma_asks_iff(states, replies, Stage::OpenSource, ActionView::OpenSource);
    lemma_asks_iff(states, replies, Stage::StartCompression, ActionView::StartCompression);
    lemma_asks_iff(states, replies, Stage::JoinCompression, ActionView::JoinCompression);
    lemma_asks_iff(states, replies, Stage::FetchOriginal, ActionView::FetchOriginal);
    if states[0].job != Job::Reembed {
        lemma_asks_iff(
            states,
            replies,
            Stage::WriteOriginal,
            ActionView::WriteOriginal { name: states[0].name },
        );
    }
    lemma_asks_iff(states, replies, Stage::OpenPreview, ActionView::OpenPreview);
    lemma_asks_iff(
        states,
        replies,
        Stage::FetchMakerNoteSafety,
        ActionView::FetchEntry { directory: DecoderDirectory::VirtualDngRootTags, tag: 0xc635 },
    );
    lemma_asks_iff(states, replies, Stage::ReadLastModified, ActionView::ReadLastModified);
}

/// A finished run, whatever its job, has decoded image and metadata and has written and finished
/// the raw image.
pub proof fn law_finished_raw_image<E>(states: Seq<Progress>, replies: Seq<Reply<E>>)
    requires
        is_run(states, replies),
        states.last().stage == Stage::Finished,
    ensures
        asks(states, ActionView::GetDecoder),
        asks(states, ActionView::ReadImage { index: states[0].params.index }),
        asks(states, ActionView::ReadMetadata { index: states[0].params.index }),
        asks(states, ActionView::CreateWriter { version: states[0].params.dng_version@ }),
        exists|j: int|
            0 <= j < states.len() && states[j].stage != Stage::Finished && #[trigger] work(
                states,
                j,
            ) is WriteRawImage,
        asks(
            states,
            ActionView::FetchDirectory { directory: DecoderDirectory::VirtualDngRawTags },
        ),
        asks(states, ActionView::FinishFrame { frame: 0 }),
{
    let p = states[0].params;
    lemma_settings(states, replies);
    law_run_performs_what_applies(states, replies, Stage::WriteRawImage);
    let written = choose|j: int|
        0 <= j < states.len() && (#[trigger] states[j]).stage == Stage::WriteRawImage;
    assert(work(states, written) is WriteRawImage);
    lemma_asks_iff(states, replies, Stage::GetDecoder, ActionView::GetDecoder);
    lemma_asks_iff(states, replies, Stage::ReadImage, ActionView::ReadImage { index: p.index });
    lemma_asks_iff(
        states,
        replies,
        Stage::ReadMetadata,
        ActionView::ReadMetadata { index: p.index },
    );
    lemma_asks_iff(
        states,
        replies,
        Stage::CreateWriter,
        ActionView::CreateWriter { version: p.dng_version@ },
    );
    lemma_asks_iff(
        states,
        replies,
        Stage::FetchRawTags,
        ActionView::FetchDirectory { directory: DecoderDirectory::VirtualDngRawTags },
    );
    lemma_asks_iff(states, replies, Stage::FinishRawImage, ActionView::FinishFrame { frame: 0 });
}

/// A finished run, whatever its job, has filled in the tags, asked the decoder for all it may have
/// to copy, and closed the file.
pub proof fn law_finished_tags<E>(states: Seq<Progress>, replies: Seq<Reply<E>>)
    requires
        is_run(states, replies),
        states.last().stage == Stage::Finished,
    ensures
        asks(states, ActionView::LoadBaseTags),
        asks(states, ActionView::LoadMetadata),
        asks(states, ActionView::CheckRootTag { tag: 0x0112 }),
        asks(
            states,
            ActionView::FetchDirectory { directory: DecoderDirectory::VirtualDngRootTags },
        ),
        asks(states, ActionView::FetchDirectory { directory: DecoderDirectory::Root }),
        asks(states, ActionView::FetchXpacket { index: states[0].params.index }),
        asks(states, ActionView::Close),
{
    lemma_settings(states, replies);
    lemma_asks_iff(states, replies, Stage::LoadBaseTags, ActionView::LoadBaseTags);
    lemma_asks_iff(states, replies, Stage::LoadMetadata, ActionView::LoadMetadata);
    lemma_asks_iff(
        states,
        replies,
        Stage::CheckOrientation,
        ActionView::CheckRootTag { tag: 0x0112 },
    );
    lemma_asks_iff(
        states,
        replies,
        Stage::FetchDngRootTags,
        ActionView::FetchDirectory { directory: DecoderDirectory::VirtualDngRootTags },
    );
    lemma_asks_iff(
        states,
        replies,
        Stage::FetchTiffRootTags,
        ActionView::FetchDirectory { directory: DecoderDirectory::Root },
    );
    lemma_asks_iff(
        states,
        replies,
        Stage::FetchXpacket,
        ActionView::FetchXpacket { index: states[0].params.index },
    );
    lemma_asks_iff(states, replies, Stage::Close, ActionView::Close);
}

/// A finished run has looked for a preview image exactly if one was needed and none was brought
/// along. It has written both previews exactly if previews were asked for, and the thumbnail
/// exactly if one was, in each case given an image: the edited one, the one that was found, or
/// the one that was developed.
pub proof fn law_previews_when_possible<E>(states: Seq<Progress>, replies: Seq<Reply<E>>)
    requires
        is_run(states, replies),
        states.last().stage == Stage::Finished,
    ensures
        asks(states, ActionView::FindPreview { index: states[0].params.index })
            <==> states[0].job != Job::Reembed && (states[0].params.preview
            || states[0].params.thumbnail),
        ({
            let p = states[0].params;
            let image = states[0].job == Job::Reembed || hears(
                states,
                replies,
                ActionView::FindPreview { index: p.index },
                Reply::Present(true),
            ) || hears(states, replies, ActionView::DevelopPreview, Reply::Present(true));
            &&& asks(
                states,
                ActionView::WritePreview {
                    frame: 1,
                    quality: p.jpeg_quality,
                    bounds: p.preview_medium,
                },
            ) <==> p.preview && image
            &&& asks(
                states,
                ActionView::WritePreview {
                    frame: 2,
                    quality: p.jpeg_quality,
                    bounds: p.preview_full,
                },
            ) <==> p.preview && image
            &&& asks(states, ActionView::WriteThumbnail) <==> p.thumbnail && image
        }),
{
    let n = replies.len() as int;
    let p = states[0].params;
    let find = ActionView::FindPreview { index: p.index };
    lemma_settings(states, replies);
    lemma_asks_iff(states, replies, Stage::FindPreview, find);
    lemma_asks_iff(
        states,
        replies,
        Stage::WriteMediumPreview,
        ActionView::WritePreview { frame: 1, quality: p.jpeg_quality, bounds: p.preview_medium },
    );
    lemma_asks_iff(
        states,
        replies,
        Stage::WriteFullPreview,
        ActionView::WritePreview { frame: 2, quality: p.jpeg_quality, bounds: p.preview_full },
    );
    lemma_asks_iff(states, replies, Stage::WriteThumbnail, ActionView::WriteThumbnail);
    if states[0].job == Job::Reembed {
        lemma_reembed_preview(states, replies, n);
    } else {
        lemma_preview_told(states, replies, n);
        lemma_told_is_heard(states, replies, Stage::FindPreview, find, Reply::Present(true));
        lemma_told_is_heard(
            states,
            replies,
            Stage::DevelopPreview,
            ActionView::DevelopPreview,
            Reply::Present(true),
        );
        if states[n].facts.developed {
            let k = choose|k: int|
                0 <= k < n && (#[trigger] states[k]).stage == Stage::DevelopPreview && replies[k]
                    == Reply::<E>::Present(true);
            law_run_keeps_settings(states, replies, k);
            lemma_preview_told(states, replies, k);
            let f = choose|f: int|
                0 <= f < k && (#[trigger] states[f]).stage == Stage::FindPreview && replies[f]
                    == Reply::<E>::Present(false);
            assert(told(states, replies, n, Stage::FindPreview, Reply::<E>::Present(false)));
        }
    }
}

/// A run sets no root tags but these: the orientation; and artist, software and modification
/// date, with the texts of the settings and a date that follows from seed and name.
pub proof fn law_own_tags_as_asked<E>(states: Seq<Progress>, replies: Seq<Reply<E>>, j: int)
    requires
        is_run(states, replies),
        0 <= j < states.len(),
        states[j].stage != Stage::Finished,
    ensures
        work(states, j) matches ActionView::SetRootTag { tag, value } ==> {
            ||| tag == 0x0112
            ||| tag == 0x013b && states[0].params.artist is Some && value == TagValueView::Ascii(
                states[0].params.artist->0@,
            )
            ||| tag == 0x0131 && value == TagValueView::Ascii(states[0].params.software@)
            ||| tag == 0x0132 && value == TagValueView::Ascii(
                modify_date_text(states[0].params.seed@, states[0].name),
            )
        },
{
    lemma_settings(states, replies);
    law_run_keeps_settings(states, replies, j);
    lemma_home(states[j]);
}

/// A finished conversion has set the artist exactly if one was given, and the software and the
/// modification date always. A finished replacement of a preview has set neither artist nor
/// software, and the date exactly if the root directory of the input has none.
pub proof fn law_own_tags_when_due<E>(
    states: Seq<Progress>,
    replies: Seq<Reply<E>>,
    k: int,
    tags: Option<Vec<u16>>,
)
    requires
        is_run(states, replies),
        states.last().stage == Stage::Finished,
        0 <= k < replies.len(),
        replies[k] == Reply::<E>::Tags(tags),
    ensures
        states[0].params.artist matches Some(artist) ==> (asks(
            states,
            ActionView::SetRootTag { tag: 0x013b, value: TagValueView::Ascii(artist@) },
        ) <==> states[0].job != Job::Reembed),
        asks(
            states,
            ActionView::SetRootTag {
                tag: 0x0131,
                value: TagValueView::Ascii(states[0].params.software@),
            },
        ) <==> states[0].job != Job::Reembed,
        asks(
            states,
            ActionView::SetRootTag {
                tag: 0x0132,
                value: TagValueView::Ascii(
                    modify_date_text(states[0].params.seed@, states[0].name),
                ),
            },
        ) <==> states[0].job != Job::Reembed || tags is None || !tags->0@.contains(0x0132),
        states[0].job == Job::Reembed && tags is Some ==> performed(states, Stage::CarryCredits),
{
    let p = states[0].params;
    let n = states.len() - 1;
    lemma_settings(states, replies);
    lemma_tags_reply(states, replies, k, tags);
    lemma_root_remembered(states, replies, k, n, tags);
    law_run_performs_what_applies(states, replies, Stage::CarryCredits);
    if p.artist is Some {
        lemma_asks_iff(
            states,
            replies,
            Stage::SetArtist,
            ActionView::SetRootTag { tag: 0x013b, value: TagValueView::Ascii(p.artist->0@) },
        );
    }
    lemma_asks_iff(
        states,
        replies,
        Stage::SetSoftware,
        ActionView::SetRootTag { tag: 0x0131, value: TagValueView::Ascii(p.software@) },
    );
    lemma_asks_iff(
        states,
        replies,
        Stage::SetModifyDate,
        ActionView::SetRootTag {
            tag: 0x0132,
            value: TagValueView::Ascii(modify_date_text(p.seed@, states[0].name)),
        },
    );
}

/// The date that a run sets, read as numbers, is cut from the 64-bit FNV-1a hash of the seed and
/// the name of the input, in this order and with the offset basis of that hash.
pub proof fn law_date_set_is_cut_from_hash<E>(
    states: Seq<Progress>,
    replies: Seq<Reply<E>>,
    j: int,
    hash: u64,
    text: Seq<char>,
)
    requires
        is_run(states, replies),
        0 <= j < states.len(),
        states[j].stage != Stage::Finished,
        work(states, j) == (ActionView::SetRootTag {
            tag: 0x0132,
            value: TagValueView::Ascii(text),
        }),
        hash == fnv1a_from(
            fnv1a_from(0xcbf29ce484222325, encode_utf8(states[0].params.seed@)),
            encode_utf8(states[0].name),
        ),
    ensures
        text.len() == 19,
        (text[0] as int - 48) * 1000 + (text[1] as int - 48) * 100 + (text[2] as int - 48) * 10 + (
        text[3] as int - 48) == 2000 + hash % 38,
        (text[5] as int - 48) * 10 + (text[6] as int - 48) == 1 + (hash / 0x100) % 12,
        (text[8] as int - 48) * 10 + (text[9] as int - 48) == 1 + (hash / 0x1_0000) % 28,
        (text[11] as int - 48) * 10 + (text[12] as int - 48) == (hash / 0x100_0000) % 24,
        (text[14] as int - 48) * 10 + (text[15] as int - 48) == (hash / 0x1_0000_0000) % 60,
        (text[17] as int - 48) * 10 + (text[18] as int - 48) == (hash / 0x100_0000_0000) % 60,
{
    lemma_settings(states, replies);
    lemma_home(states[j]);
    law_date_is_cut_from_hash(states[0].params.seed@, states[0].name, hash);
}

/// The replacement of a preview embeds what the input was found to embed, right after it was
/// found and under the recorded name, and nothing else.
pub proof fn law_original_as_told<E>(states: Seq<Progress>, replies: Seq<Reply<E>>, j: int)
    requires
        is_run(states, replies),
        states[0].job == Job::Reembed,
        0 < j < states.len(),
    ensures
        work(states, j - 1) == ActionView::FetchOriginal ==> match replies[j - 1]->Original_0 {
            Some(name) => states[j].stage != Stage::Finished && work(states, j) == (
            ActionView::WriteOriginal { name: name@ }),
            None => states[j].stage == Stage::Finished || !(work(states, j) is WriteOriginal),
        },
        states[j].stage != Stage::Finished && work(states, j) is WriteOriginal ==> work(
            states,
            j - 1,
        ) == ActionView::FetchOriginal,
{
    assert(is_step(states, replies, j - 1));
    law_run_keeps_settings(states, replies, j - 1);
    law_run_keeps_settings(states, replies, j);
    lemma_home(states[j - 1]);
    if states[j].stage != Stage::Finished {
        lemma_home(states[j]);
    }
    let before = states[j - 1];
    let after = states[j];
    law_rank_identifies_stage(after.stage, Stage::WriteOriginal);
    if before.stage == Stage::FetchOriginal {
        assert(after.applies(Stage::WriteOriginal) == (replies[j - 1]->Original_0 is Some));
    }
    if after.stage == Stage::WriteOriginal {
        if after.params.embedded {
            assert(after.applies(Stage::FetchOriginal));
            law_rank_identifies_stage(before.stage, Stage::FetchOriginal);
        } else {
            lemma_no_original(states, replies, j);
        }
    }
}

proof fn lemma_no_original<E>(states: Seq<Progress>, replies: Seq<Reply<E>>, j: int)
    requires
        is_run(states, replies),
        states[0].job == Job::Reembed,
        !states[0].params.embedded,
        0 <= j < states.len(),
    ensures
        states[j].facts.original_name is None,
    decreases j,
{
    law_run_keeps_settings(states, replies, j);
    if j > 0 {
        lemma_no_original(states, replies, j - 1);
        assert(is_step(states, replies, j - 1));
        law_run_keeps_settings(states, replies, j - 1);
    }
}

/// A conversion embeds the compressed raw file right after it has waited for it.
pub proof fn law_compressed_file_is_embedded<E>(
    states: Seq<Progress>,
    replies: Seq<Reply<E>>,
    j: int,
)
    requires
        is_run(states, replies),
        states[0].job != Job::Reembed,
        0 < j < states.len(),
    ensures
        states[j].stage != Stage::Finished && work(states, j) is WriteOriginal <==> work(
            states,
            j - 1,
        ) == ActionView::JoinCompression,
{
    assert(is_step(states, replies, j - 1));
    law_run_keeps_settings(states, replies, j - 1);
    law_run_keeps_settings(states, replies, j);
    lemma_home(states[j - 1]);
    if states[j].stage != Stage::Finished {
        lemma_home(states[j]);
    }
    let before = states[j - 1];
    let after = states[j];
    law_rank_identifies_stage(after.stage, Stage::WriteOriginal);
    law_rank_identifies_stage(before.stage, Stage::JoinCompression);
    if before.stage == Stage::JoinCompression {
        assert(after.applies(Stage::WriteOriginal));
    }
    if after.stage == Stage::WriteOriginal {
        assert(after.applies(Stage::JoinCompression));
    }
}

/// A failure ends the course, except that of looking for a preview, of developing one, and of
/// reading the timestamp. A reply that is no failure never ends it.
pub proof fn law_only_three_failures_are_tolerated<E>(state: Progress, reply: Reply<E>)
    requires
        state.stage != Stage::Finished,
    ensures
        ends(state.stage, reply) <==> reply is Failed && !(match state.action_of(state.stage) {
            ActionView::FindPreview { .. } => true,
            ActionView::DevelopPreview => true,
            ActionView::ReadLastModified => true,
            _ => false,
        }),
{
    lemma_home(state);
}

/// Each kind of work has its kind of reply, and all work may fail: reading the image tells of the
/// image, a rotation tells the new size, the input's root directory its tags, an entry its value,
/// an embedded original its name, the metadata its timestamp; looking for something tells whether
/// it is there; all else is just done.
pub proof fn law_kinds_of_replies<E>(state: Progress, reply: Reply<E>)
    requires
        state.stage != Stage::Finished,
    ensures
        answers(state.stage, reply) <==> reply is Failed || match state.action_of(state.stage) {
            ActionView::ReadImage { .. } => reply is Image,
            ActionView::Rotate { .. } => reply is Rotated,
            ActionView::FetchDirectory { directory } => if directory == DecoderDirectory::Root {
                reply is Tags
            } else {
                reply is Present
            },
            ActionView::FindPreview { .. } => reply is Present,
            ActionView::DevelopPreview => reply is Present,
            ActionView::CheckRootTag { .. } => reply is Present,
            ActionView::FetchXpacket { .. } => reply is Present,
            ActionView::FetchEntry { .. } => reply is Entry,
            ActionView::FetchOriginal => reply is Original,
            ActionView::ReadLastModified => reply is LastModified,
            _ => reply is Done,
        },
{
    lemma_home(state);
}

/// A finished run reports the timestamp that it was told as its last reply, and none where it was
/// not told any: after a failure to read it, and when a preview was replaced.
pub proof fn law_timestamp_as_told<E>(states: Seq<Progress>, replies: Seq<Reply<E>>)
    requires
        is_run(states, replies),
        states.last().stage == Stage::Finished,
    ensures
        replies.len() > 0,
        states[0].job == Job::Reembed ==> states.last().facts.last_modified is None,
        states[0].job != Job::Reembed ==> {
            &&& work(states, replies.len() - 1) == ActionView::ReadLastModified
            &&& replies.last() is LastModified || replies.last() is Failed
            &&& replies.last() matches Reply::LastModified(time)
                ==> states.last().facts.last_modified == time
            &&& replies.last() is Failed ==> states.last().facts.last_modified is None
        },
{
    let n = replies.len() as int;
    law_run_keeps_settings(states, replies, 0);
    assert(states[0].applies(Stage::GetDecoder));
    law_run_keeps_settings(states, replies, n);
    if states[0].job == Job::Reembed {
        lemma_no_timestamp(states, replies, n);
    } else {
        law_reported_timestamp(states, replies);
        law_run_keeps_settings(states, replies, n - 1);
        assert(is_step(states, replies, n - 1));
        assert(states[n].applies(Stage::ReadLastModified));
        law_rank_identifies_stage(states[n - 1].stage, Stage::ReadLastModified);
        law_rank_identifies_stage(states[n - 1].stage, Stage::Finished);
    }
}

proof fn lemma_no_timestamp<E>(states: Seq<Progress>, replies: Seq<Reply<E>>, j: int)
    requires
        is_run(states, replies),
        states[0].job == Job::Reembed,
        0 <= j < states.len(),
    ensures
        states[j].facts.last_modified is None,
    decreases j,
{
    if j > 0 {
        lemma_no_timestamp(states, replies, j - 1);
        assert(is_step(states, replies, j - 1));
        law_run_keeps_settings(states, replies, j - 1);
    }
}

/// What the command line says is what happens: it decides how the raw image is stored, whether
/// there are previews and a thumbnail, and whether an embedded original is looked for. The image
/// is the first of the file, keeps its representation, and goes into a DNG of version 1.4; the
/// previews have quality 92 and fit 1024 by 1024 and 4000 by 3000 pixels.
pub proof fn law_command_decides_work<P, E>(
    options: ReembedOptions<P>,
    version: Seq<char>,
    states: Seq<Progress>,
    replies: Seq<Reply<E>>,
    j: int,
)
    requires
        is_run(states, replies),
        states[0].job == Job::Reembed,
        refusal(options) is None,
        expresses(states[0].params, options, version),
        0 <= j < states.len(),
        states[j].stage != Stage::Finished,
    ensures
        match work(states, j) {
            ActionView::ReadImage { index } => index == 0,
            ActionView::ReadMetadata { index } => index == 0,
            ActionView::FetchXpacket { index } => index == 0,
            ActionView::CreateWriter { version } => version == seq![1u8, 4u8, 0u8, 0u8],
            ActionView::WriteRawImage { on_root, crop, compression, photometric, predictor } => {
                &&& on_root <==> !options.thumbnail_enabled
                &&& options.crop == Some(crop)
                &&& options.compress ==> compression == DngCompression::Lossless
                &&& !options.compress ==> options.compression == Some(compression)
                &&& photometric == DngPhotometricConversion::Original
                &&& options.predictor == Some(predictor)
            },
            ActionView::WritePreview { frame, quality, bounds } => {
                &&& options.preview_enabled
                &&& quality == 92
                &&& frame == 1 && bounds == (Dim2 { w: 1024, h: 1024 }) || frame == 2 && bounds
                    == (Dim2 { w: 4000, h: 3000 })
            },
            ActionView::WriteThumbnail => options.thumbnail_enabled,
            ActionView::FetchOriginal => options.embedded,
            ActionView::WriteOriginal { .. } => options.embedded,
            ActionView::SetRootTag { tag, value } => tag == 0x0112 || tag == 0x0132 && value
                == TagValueView::Ascii(
                modify_date_text(
                    if options.seed is Some {
                        options.seed->0@
                    } else {
                        seq![]
                    },
                    states[0].name,
                ),
            ),
            ActionView::ApplyScaling => false,
            ActionView::Rotate { .. } => false,
            ActionView::StartCompression => false,
            _ => true,
        },
        states.last().stage == Stage::Finished ==> {
            &&& options.embedded <==> asks(states, ActionView::FetchOriginal)
            &&& options.thumbnail_enabled <==> asks(states, ActionView::WriteThumbnail)
            &&& options.preview_enabled <==> asks(
                states,
                ActionView::WritePreview {
                    frame: 1,
                    quality: 92,
                    bounds: Dim2 { w: 1024, h: 1024 },
                },
            )
            &&& options.preview_enabled <==> asks(
                states,
                ActionView::WritePreview {
                    frame: 2,
                    quality: 92,
                    bounds: Dim2 { w: 4000, h: 3000 },
                },
            )
        },
{
    lemma_settings(states, replies);
    law_run_keeps_settings(states, replies, j);
    lemma_home(states[j]);
    if states[j].stage == Stage::WriteOriginal && !options.embedded {
        lemma_no_original(states, replies, j);
    }
    assert(seq![] =~= Seq::<char>::empty());
    if states.last().stage == Stage::Finished {
        law_finished_work_of_job(states, replies);
        law_previews_when_possible(states, replies);
    }
}

/// The place of an action in a file's making: inputs, then the raw image, then previews, then
/// tags, then the original, and the file's own tags last.
pub open spec fn phase(action: ActionView) -> int {
    match action {
        ActionView::OpenSource => 0,
        ActionView::StartCompression => 1,
        ActionView::GetDecoder => 2,
        ActionView::ReadImage { .. } => 3,
        ActionView::ReadMetadata { .. } => 4,
        ActionView::OpenPreview => 5,
        ActionView::ApplyScaling => 6,
        ActionView::Rotate { .. } => 7,
        ActionView::AdoptRotation { .. } => 8,
        ActionView::CreateWriter { .. } => 9,
        ActionView::WriteRawImage { .. } => 10,
        ActionView::CopyRawTags => 12,
        ActionView::FindPreview { .. } => 14,
        ActionView::DevelopPreview => 15,
        ActionView::WriteThumbnail => 20,
        ActionView::LoadBaseTags => 21,
        ActionView::LoadMetadata => 22,
        ActionView::CheckRootTag { .. } => 23,
        ActionView::CopyDngRootTags => 26,
        ActionView::FetchEntry { .. } => 29,
        ActionView::RemoveExifTag { .. } => 30,
        ActionView::FetchXpacket { .. } => 31,
        ActionView::WriteXpacket => 32,
        ActionView::JoinCompression => 33,
        ActionView::FetchOriginal => 34,
        ActionView::WriteOriginal { .. } => 35,
        ActionView::Close => 40,
        ActionView::ReadLastModified => 41,
        ActionView::FetchDirectory { directory } => match directory {
            DecoderDirectory::VirtualDngRawTags => 11,
            DecoderDirectory::VirtualDngRootTags => 25,
            DecoderDirectory::Root => 27,
        },
        ActionView::FinishFrame { frame } => if frame == 0 {
            13
        } else {
            15 + 2 * frame
        },
        ActionView::WritePreview { frame, .. } => 14 + 2 * frame,
        ActionView::SetRootTag { tag, .. } => if tag == 0x0112 {
            24
        } else if tag == 0x013b {
            37
        } else if tag == 0x0131 {
            38
        } else {
            39
        },
        ActionView::CopyTiffRootTags { .. } => 28,
    }
}

/// Work is asked for in a fixed order: of two pieces of work of a run, the later one belongs to a
/// later phase. Only the second copy from the input's root directory comes later than its phase:
/// after any original, and before the date.
pub proof fn law_order_of_work<E>(
    states: Seq<Progress>,
    replies: Seq<Reply<E>>,
    i: int,
    j: int,
)
    requires
        is_run(states, replies),
        0 <= i < j < states.len(),
        states[j].stage != Stage::Finished,
    ensures
        !(work(states, i) is CopyTiffRootTags) && !(work(states, j) is CopyTiffRootTags) ==> phase(
            work(states, i),
        ) < phase(work(states, j)),
        work(states, i) is CopyTiffRootTags ==> phase(work(states, j)) >= 28,
        work(states, j) is CopyTiffRootTags ==> phase(work(states, i)) <= 35,
        work(states, i) is CopyTiffRootTags && work(states, j) is CopyTiffRootTags ==> forall|k: int|
            j < k < states.len() && states[k].stage != Stage::Finished ==> phase(
                #[trigger] work(states, k),
            ) > 35,
{
    law_run_is_ordered(states, replies, i, j);
    law_rank_identifies_stage(states[i].stage, Stage::Finished);
    law_rank_identifies_stage(states[j].stage, Stage::Finished);
    lemma_phase(states[i]);
    lemma_phase(states[j]);
    assert forall|k: int|
        j < k < states.len() && states[k].stage != Stage::Finished && work(states, i)
            is CopyTiffRootTags && work(states, j) is CopyTiffRootTags implies phase(
        #[trigger] work(states, k),
    ) > 35 by {
        law_run_is_ordered(states, replies, j, k);
        lemma_phase(states[k]);
    }
}

/// The phase of a stage's work is the place of the stage, but for the second copy of tags.
proof fn lemma_phase(state: Progress)
    requires
        state.stage != Stage::Finished,
    ensures
        state.stage != Stage::CarryCredits ==> phase(state.action_of(state.stage))
            == state.stage.rank(),
        state.stage == Stage::CarryCredits ==> state.stage.rank() == 36 && phase(
            state.action_of(state.stage),
        ) == 28,
        state.action_of(state.stage) is CopyTiffRootTags <==> state.stage.rank() == 28
            || state.stage.rank() == 36,
{
}

} // verus!
