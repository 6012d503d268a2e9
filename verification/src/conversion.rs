//! The course of a conversion.
//!
//! A [`Conversion`] names one piece of outside work at a time; the caller performs it and hands
//! back the reply. The stages have a fixed order. Each is taken up exactly when its condition
//! holds, which depends on the parameters and on what the replies so far have told.

use std::time::SystemTime;
use vstd::prelude::*;
use vstd::string::*;

use crate::action::{Action, ActionView, DecoderDirectory, Reply};
use crate::image::{
    conversion_for, photometric_conversion, ImageFacts, RawPhotometricInterpretation,
    RotatedLayout,
};
use crate::modify_date::{modify_date, modify_date_text};
use crate::params::{ConvertInfo, ConvertParams, Dim2};
use crate::stage::{law_rank_identifies_stage, Stage, LAST_RANK};
use crate::tags::{
    carried_tags, credit_tags, declares_maker_notes_unsafe, entry_view, holds_tag,
    maker_notes_unsafe, select_carried_tags, select_credit_tags, TagValue, TagValueView, ARTIST,
    MAKER_NOTES, MAKER_NOTE_SAFETY, MODIFY_DATE, ORIENTATION, SOFTWARE,
};

verus! {

/// What is to be converted.
#[derive(Clone, Copy, Debug, PartialEq, Eq, Structural)]
pub enum Job {
    /// A raw file into a DNG.
    ConvertFile,
    /// A raw source that is already open into a DNG.
    ConvertSource,
    /// A DNG into a DNG with another preview.
    Reembed,
}

/// What came of the search for a preview image.
#[derive(Clone, Copy, Debug, PartialEq, Eq, Structural)]
pub enum PreviewSearch {
    /// Not looked for yet.
    Pending,
    Found,
    Absent,
    Failed,
}

/// What the replies have told so far.
#[derive(Debug)]
pub struct Facts {
    pub image: Option<ImageFacts>,
    /// Size of the rotated image.
    pub rotated: Option<Dim2>,
    /// The decoder has tags for the raw directory.
    pub raw_tags: bool,
    pub preview: PreviewSearch,
    /// A preview image was developed from the raw image.
    pub developed: bool,
    /// The root directory has an orientation.
    pub has_orientation: bool,
    /// The decoder has DNG tags for the root directory.
    pub dng_root_tags: bool,
    /// Tags of the input's own root directory.
    pub tiff_root: Option<Vec<u16>>,
    pub maker_note_safety: Option<TagValue>,
    /// The decoder has an XMP packet.
    pub xpacket: bool,
    /// File name recorded with the original that the input embeds.
    pub original_name: Option<String>,
    pub last_modified: Option<SystemTime>,
}

impl Facts {
    /// No reply has told anything.
    pub open spec fn blank(self) -> bool {
        &&& self.image is None
        &&& self.rotated is None
        &&& !self.raw_tags
        &&& self.preview == PreviewSearch::Pending
        &&& !self.developed
        &&& !self.has_orientation
        &&& !self.dng_root_tags
        &&& self.tiff_root is None
        &&& self.maker_note_safety is None
        &&& !self.xpacket
        &&& self.original_name is None
        &&& self.last_modified is None
    }
}

/// The state of a conversion.
pub struct Progress {
    pub job: Job,
    pub params: ConvertParams,
    /// File name of the input.
    pub name: Seq<char>,
    pub facts: Facts,
    /// The stage whose action is being performed.
    pub stage: Stage,
}

impl Progress {
    /// A raw image is converted, rather than a preview replaced.
    pub open spec fn converting(self) -> bool {
        self.job != Job::Reembed
    }

    /// The raw image is rotated before it is written.
    pub open spec fn rotating(self) -> bool {
        &&& self.converting()
        &&& self.facts.image matches Some(image)
        &&& image.needs_rotation()
    }

    /// There is an image from which previews and thumbnail can be made.
    pub open spec fn has_preview_image(self) -> bool {
        ||| self.facts.preview == PreviewSearch::Found
        ||| self.facts.preview == PreviewSearch::Absent && self.facts.developed
    }

    /// The interpretation of the raw image that is written.
    pub open spec fn photometric(self) -> RawPhotometricInterpretation {
        if self.rotating() {
            RawPhotometricInterpretation::LinearRaw
        } else {
            self.facts.image->0.photometric
        }
    }

    /// The file name under which the original is embedded: that of the raw file, or the one that
    /// the DNG has recorded with the original it embeds.
    pub open spec fn original_name(self) -> Seq<char> {
        if self.converting() {
            self.name
        } else {
            self.facts.original_name->0@
        }
    }

    /// The root directory of the input is known to hold a modification date.
    pub open spec fn input_has_date(self) -> bool {
        self.facts.tiff_root is Some && self.facts.tiff_root->0@.contains(MODIFY_DATE)
    }

    /// The condition under which a stage is taken up.
    pub open spec fn applies(self, stage: Stage) -> bool {
        match stage {
            Stage::OpenSource => self.job != Job::ConvertSource,
            Stage::StartCompression => self.converting() && self.params.embedded,
            Stage::OpenPreview => !self.converting(),
            Stage::ApplyScaling => self.rotating() || self.converting()
                && self.params.apply_scaling,
            Stage::Rotate => self.rotating(),
            Stage::AdoptRotation => self.rotating(),
            Stage::CopyRawTags => self.facts.raw_tags,
            Stage::FindPreview => self.converting() && (self.params.preview
                || self.params.thumbnail),
            Stage::DevelopPreview => self.converting() && self.facts.preview
                == PreviewSearch::Absent,
            Stage::WriteMediumPreview => self.params.preview && self.has_preview_image(),
            Stage::FinishMediumPreview => self.params.preview && self.has_preview_image(),
            Stage::WriteFullPreview => self.params.preview && self.has_preview_image(),
            Stage::FinishFullPreview => self.params.preview && self.has_preview_image(),
            Stage::WriteThumbnail => self.params.thumbnail && self.has_preview_image(),
            Stage::SetOrientation => !self.facts.has_orientation,
            Stage::CopyDngRootTags => self.facts.dng_root_tags,
            Stage::CopyTiffRootTags => self.facts.tiff_root is Some,
            Stage::FetchMakerNoteSafety => self.converting(),
            Stage::RemoveMakerNotes => self.converting() && declares_maker_notes_unsafe(
                entry_view(self.facts.maker_note_safety),
            ),
            Stage::WriteXpacket => self.facts.xpacket,
            Stage::JoinCompression => self.converting() && self.params.embedded,
            Stage::FetchOriginal => !self.converting() && self.params.embedded,
            Stage::WriteOriginal => if self.converting() {
                self.params.embedded
            } else {
                self.facts.original_name is Some
            },
            Stage::CarryCredits => !self.converting() && self.facts.tiff_root is Some,
            Stage::SetArtist => self.converting() && self.params.artist is Some,
            Stage::SetSoftware => self.converting(),
            Stage::SetModifyDate => self.converting() || !self.input_has_date(),
            Stage::ReadLastModified => self.converting(),
            _ => true,
        }
    }

    /// The work of a stage.
    pub open spec fn action_of(self, stage: Stage) -> ActionView {
        match stage {
            Stage::OpenSource => ActionView::OpenSource,
            Stage::StartCompression => ActionView::StartCompression,
            Stage::GetDecoder => ActionView::GetDecoder,
            Stage::ReadImage => ActionView::ReadImage { index: self.params.index },
            Stage::ReadMetadata => ActionView::ReadMetadata { index: self.params.index },
            Stage::OpenPreview => ActionView::OpenPreview,
            Stage::ApplyScaling => ActionView::ApplyScaling,
            Stage::Rotate => ActionView::Rotate {
                area: self.facts.image->0.demosaic_area(),
                width: self.facts.image->0.fuji_rotation_width,
                quarter_turn: self.facts.image->0.needs_quarter_turn(),
            },
            Stage::AdoptRotation => ActionView::AdoptRotation {
                size: self.facts.rotated->0,
                active_area: None,
                cpp: 3,
                whitelevel: seq![1u32, 1u32, 1u32],
                interpretation: RawPhotometricInterpretation::LinearRaw,
            },
            Stage::CreateWriter => ActionView::CreateWriter {
                version: self.params.dng_version@,
            },
            Stage::WriteRawImage => ActionView::WriteRawImage {
                on_root: !self.params.thumbnail,
                crop: self.params.crop,
                compression: self.params.compression,
                photometric: conversion_for(self.params, self.photometric()),
                predictor: self.params.predictor,
            },
            Stage::FetchRawTags => ActionView::FetchDirectory {
                directory: DecoderDirectory::VirtualDngRawTags,
            },
            Stage::CopyRawTags => ActionView::CopyRawTags,
            Stage::FinishRawImage => ActionView::FinishFrame { frame: 0 },
            Stage::FindPreview => ActionView::FindPreview { index: self.params.index },
            Stage::DevelopPreview => ActionView::DevelopPreview,
            Stage::WriteMediumPreview => ActionView::WritePreview {
                frame: 1,
                quality: self.params.jpeg_quality,
                bounds: self.params.preview_medium,
            },
            Stage::FinishMediumPreview => ActionView::FinishFrame { frame: 1 },
            Stage::WriteFullPreview => ActionView::WritePreview {
                frame: 2,
                quality: self.params.jpeg_quality,
                bounds: self.params.preview_full,
            },
            Stage::FinishFullPreview => ActionView::FinishFrame { frame: 2 },
            Stage::WriteThumbnail => ActionView::WriteThumbnail,
            Stage::LoadBaseTags => ActionView::LoadBaseTags,
            Stage::LoadMetadata => ActionView::LoadMetadata,
            Stage::CheckOrientation => ActionView::CheckRootTag { tag: ORIENTATION },
            Stage::SetOrientation => ActionView::SetRootTag {
                tag: ORIENTATION,
                value: TagValueView::Short(seq![self.facts.image->0.orientation]),
            },
            Stage::FetchDngRootTags => ActionView::FetchDirectory {
                directory: DecoderDirectory::VirtualDngRootTags,
            },
            Stage::CopyDngRootTags => ActionView::CopyDngRootTags,
            Stage::FetchTiffRootTags => ActionView::FetchDirectory {
                directory: DecoderDirectory::Root,
            },
            Stage::CopyTiffRootTags => ActionView::CopyTiffRootTags {
                tags: carried_tags(self.facts.tiff_root->0@),
            },
            Stage::FetchMakerNoteSafety => ActionView::FetchEntry {
                directory: DecoderDirectory::VirtualDngRootTags,
                tag: MAKER_NOTE_SAFETY,
            },
            Stage::RemoveMakerNotes => ActionView::RemoveExifTag { tag: MAKER_NOTES },
            Stage::FetchXpacket => ActionView::FetchXpacket { index: self.params.index },
            Stage::WriteXpacket => ActionView::WriteXpacket,
            Stage::JoinCompression => ActionView::JoinCompression,
            Stage::FetchOriginal => ActionView::FetchOriginal,
            Stage::WriteOriginal => ActionView::WriteOriginal { name: self.original_name() },
            Stage::CarryCredits => ActionView::CopyTiffRootTags {
                tags: credit_tags(self.facts.tiff_root->0@),
            },
            Stage::SetArtist => ActionView::SetRootTag {
                tag: ARTIST,
                value: TagValueView::Ascii(self.params.artist->0@),
            },
            Stage::SetSoftware => ActionView::SetRootTag {
                tag: SOFTWARE,
                value: TagValueView::Ascii(self.params.software@),
            },
            Stage::SetModifyDate => ActionView::SetRootTag {
                tag: MODIFY_DATE,
                value: TagValueView::Ascii(modify_date_text(self.params.seed@, self.name)),
            },
            Stage::Close => ActionView::Close,
            Stage::ReadLastModified => ActionView::ReadLastModified,
            Stage::Finished => arbitrary(),
        }
    }

    /// Unless the course is over, the stage in progress applies, and what its action needs is
    /// known.
    pub open spec fn wf(self) -> bool {
        self.stage != Stage::Finished ==> {
            &&& self.applies(self.stage)
            &&& self.stage.rank() > Stage::ReadImage.rank() ==> self.facts.image is Some
            &&& self.stage.rank() > Stage::Rotate.rank() && self.rotating()
                ==> self.facts.rotated is Some
        }
    }

    /// The stage in progress is the first one after `earlier` that applies.
    pub open spec fn follows(self, earlier: Stage) -> bool {
        &&& earlier.rank() < self.stage.rank()
        &&& self.applies(self.stage)
        &&& forall|other: Stage|
            earlier.rank() < other.rank() < self.stage.rank() ==> !#[trigger] self.applies(other)
    }

    /// Nothing is known yet, and the first stage that applies is being taken up.
    pub open spec fn is_start(self) -> bool {
        &&& self.facts.blank()
        &&& self.applies(self.stage)
        &&& forall|other: Stage|
            other.rank() < self.stage.rank() ==> !#[trigger] self.applies(other)
    }

    /// What is known after a reply to the action of the current stage.
    pub open spec fn learned<E>(self, reply: Reply<E>) -> Facts {
        let facts = self.facts;
        match (self.stage, reply) {
            (Stage::ReadImage, Reply::Image(image)) => Facts { image: Some(image), ..facts },
            (Stage::OpenPreview, Reply::Done) => Facts { preview: PreviewSearch::Found, ..facts },
            (Stage::Rotate, Reply::Rotated(size)) => Facts { rotated: Some(size), ..facts },
            (Stage::FetchRawTags, Reply::Present(found)) => Facts { raw_tags: found, ..facts },
            (Stage::FindPreview, Reply::Present(found)) => Facts {
                preview: if found {
                    PreviewSearch::Found
                } else {
                    PreviewSearch::Absent
                },
                ..facts
            },
            (Stage::FindPreview, Reply::Failed(_)) => Facts {
                preview: PreviewSearch::Failed,
                ..facts
            },
            (Stage::DevelopPreview, Reply::Present(made)) => Facts { developed: made, ..facts },
            (Stage::CheckOrientation, Reply::Present(found)) => Facts {
                has_orientation: found,
                ..facts
            },
            (Stage::FetchDngRootTags, Reply::Present(found)) => Facts {
                dng_root_tags: found,
                ..facts
            },
            (Stage::FetchTiffRootTags, Reply::Tags(tags)) => Facts { tiff_root: tags, ..facts },
            (Stage::FetchMakerNoteSafety, Reply::Entry(entry)) => Facts {
                maker_note_safety: entry,
                ..facts
            },
            (Stage::FetchXpacket, Reply::Present(found)) => Facts { xpacket: found, ..facts },
            (Stage::FetchOriginal, Reply::Original(name)) => Facts {
                original_name: name,
                ..facts
            },
            (Stage::ReadLastModified, Reply::LastModified(time)) => Facts {
                last_modified: time,
                ..facts
            },
            _ => facts,
        }
    }

    /// The course goes on from `self` to `after` with `reply`: the reply is taken note of, and
    /// the first later stage that applies now is taken up.
    pub open spec fn steps_to<E>(self, reply: Reply<E>, after: Progress) -> bool {
        &&& after == Progress { facts: self.learned(reply), stage: after.stage, ..self }
        &&& after.follows(self.stage)
    }
}

/// A failure of this stage does not end the conversion: it goes on without a preview, or
/// without a timestamp.
pub open spec fn tolerates_failure(stage: Stage) -> bool {
    stage == Stage::FindPreview || stage == Stage::DevelopPreview || stage
        == Stage::ReadLastModified
}

/// `reply` is of the kind that answers the action of `stage`. Any action may fail.
pub open spec fn answers<E>(stage: Stage, reply: Reply<E>) -> bool {
    match stage {
        Stage::ReadImage => reply is Image || reply is Failed,
        Stage::Rotate => reply is Rotated || reply is Failed,
        Stage::FetchRawTags | Stage::FindPreview | Stage::DevelopPreview
        | Stage::CheckOrientation | Stage::FetchDngRootTags | Stage::FetchXpacket => reply
            is Present || reply is Failed,
        Stage::FetchTiffRootTags => reply is Tags || reply is Failed,
        Stage::FetchMakerNoteSafety => reply is Entry || reply is Failed,
        Stage::FetchOriginal => reply is Original || reply is Failed,
        Stage::ReadLastModified => reply is LastModified || reply is Failed,
        Stage::Finished => false,
        _ => reply is Done || reply is Failed,
    }
}

/// `reply` ends the conversion with an error.
pub open spec fn ends<E>(stage: Stage, reply: Reply<E>) -> bool {
    reply is Failed && !tolerates_failure(stage)
}

/// A step from a well-formed state leads to a well-formed state.
pub proof fn law_step_keeps_wf<E>(before: Progress, reply: Reply<E>, after: Progress)
    requires
        before.wf(),
        answers(before.stage, reply),
        !ends(before.stage, reply),
        before.steps_to(reply, after),
    ensures
        after.wf(),
{
    assert(after.applies(Stage::ReadImage));
    assert(after.applies(Stage::Rotate) == after.rotating());
}

/// A conversion in progress.
pub struct Conversion<'a> {
    job: Job,
    params: &'a ConvertParams,
    name: String,
    facts: Facts,
    stage: Stage,
}

impl<'a> View for Conversion<'a> {
    type V = Progress;

    closed spec fn view(&self) -> Progress {
        Progress {
            job: self.job,
            params: *self.params,
            name: self.name@,
            facts: self.facts,
            stage: self.stage,
        }
    }
}

impl<'a> Conversion<'a> {
    /// Begin a conversion of the input with the given file name.
    pub fn new(job: Job, params: &'a ConvertParams, name: &str) -> (r: Conversion<'a>)
        ensures
            r@.job == job,
            r@.params == *params,
            r@.name == name@,
            r@.is_start(),
            r@.wf(),
            r@.stage != Stage::Finished,
    {
        let facts = Facts {
            image: None,
            rotated: None,
            raw_tags: false,
            preview: PreviewSearch::Pending,
            developed: false,
            has_orientation: false,
            dng_root_tags: false,
            tiff_root: None,
            maker_note_safety: None,
            xpacket: false,
            original_name: None,
            last_modified: None,
        };
        let stage: Stage = match job {
            Job::ConvertSource => if params.embedded {
                Stage::StartCompression
            } else {
                Stage::GetDecoder
            },
            _ => Stage::OpenSource,
        };
        Conversion { job, params, name: name.to_owned(), facts, stage }
    }

    /// Whether a raw image is converted, rather than a preview replaced.
    fn is_converting(&self) -> (r: bool)
        ensures
            r == self@.converting(),
    {
        match self.job {
            Job::Reembed => false,
            _ => true,
        }
    }

    fn is_rotating(&self) -> (r: bool)
        ensures
            r == self@.rotating(),
    {
        match &self.facts.image {
            Some(image) => self.is_converting() && image.requires_rotation(),
            None => false,
        }
    }

    fn preview_image_known(&self) -> (r: bool)
        ensures
            r == self@.has_preview_image(),
    {
        match self.facts.preview {
            PreviewSearch::Found => true,
            PreviewSearch::Absent => self.facts.developed,
            _ => false,
        }
    }

    fn knows_input_date(&self) -> (r: bool)
        ensures
            r == self@.input_has_date(),
    {
        match &self.facts.tiff_root {
            Some(tags) => holds_tag(tags, MODIFY_DATE),
            None => false,
        }
    }

    /// Whether the stage is to be taken up, by what is known now.
    fn wants(&self, stage: Stage) -> (r: bool)
        ensures
            r == self@.applies(stage),
    {
        match stage {
            Stage::OpenSource => match self.job {
                Job::ConvertSource => false,
                _ => true,
            },
            Stage::StartCompression => self.is_converting() && self.params.embedded,
            Stage::OpenPreview => !self.is_converting(),
            Stage::ApplyScaling => self.is_rotating() || self.is_converting()
                && self.params.apply_scaling,
            Stage::Rotate => self.is_rotating(),
            Stage::AdoptRotation => self.is_rotating(),
            Stage::CopyRawTags => self.facts.raw_tags,
            Stage::FindPreview => self.is_converting() && (self.params.preview
                || self.params.thumbnail),
            Stage::DevelopPreview => match self.facts.preview {
                PreviewSearch::Absent => self.is_converting(),
                _ => false,
            },
            Stage::WriteMediumPreview => self.params.preview && self.preview_image_known(),
            Stage::FinishMediumPreview => self.params.preview && self.preview_image_known(),
            Stage::WriteFullPreview => self.params.preview && self.preview_image_known(),
            Stage::FinishFullPreview => self.params.preview && self.preview_image_known(),
            Stage::WriteThumbnail => self.params.thumbnail && self.preview_image_known(),
            Stage::SetOrientation => !self.facts.has_orientation,
            Stage::CopyDngRootTags => self.facts.dng_root_tags,
            Stage::CopyTiffRootTags => self.facts.tiff_root.is_some(),
            Stage::FetchMakerNoteSafety => self.is_converting(),
            Stage::RemoveMakerNotes => self.is_converting() && maker_notes_unsafe(
                &self.facts.maker_note_safety,
            ),
            Stage::WriteXpacket => self.facts.xpacket,
            Stage::JoinCompression => self.is_converting() && self.params.embedded,
            Stage::FetchOriginal => !self.is_converting() && self.params.embedded,
            Stage::WriteOriginal => if self.is_converting() {
                self.params.embedded
            } else {
                self.facts.original_name.is_some()
            },
            Stage::CarryCredits => !self.is_converting() && self.facts.tiff_root.is_some(),
            Stage::SetArtist => self.is_converting() && self.params.artist.is_some(),
            Stage::SetSoftware => self.is_converting(),
            Stage::SetModifyDate => self.is_converting() || !self.knows_input_date(),
            Stage::ReadLastModified => self.is_converting(),
            _ => true,
        }
    }

    /// The first stage after the current one that is to be taken up.
    fn next_stage(&self) -> (r: Stage)
        requires
            self@.stage != Stage::Finished,
        ensures
            (Progress { stage: r, ..self@ }).follows(self@.stage),
    {
        let mut stage: Stage = self.stage.successor();
        proof {
            assert forall|other: Stage|
                self@.stage.rank() < other.rank() < stage.rank() implies !self@.applies(
                other,
            ) by {}
        }
        while !self.wants(stage)
            invariant
                self@.stage.rank() < stage.rank(),
                forall|other: Stage|
                    self@.stage.rank() < other.rank() < stage.rank() ==> !#[trigger] self@.applies(
                        other,
                    ),
            decreases LAST_RANK - stage.rank(),
        {
            proof {
                law_rank_identifies_stage(stage, stage);
                assert forall|other: Stage|
                    self@.stage.rank() < other.rank() < stage.rank() + 1 implies !self@.applies(
                    other,
                ) by {
                    law_rank_identifies_stage(other, stage);
                }
            }
            let following: Stage = stage.successor();
            proof {
                law_rank_identifies_stage(following, following);
            }
            stage = following;
        }
        proof {
            let taken = Progress { stage, ..self@ };
            assert forall|other: Stage|
                self@.stage.rank() < other.rank() < stage.rank() implies !#[trigger] taken.applies(
                other,
            ) by {
                assert(!self@.applies(other));
            }
        }
        stage
    }

    /// The stage in progress.
    pub fn stage(&self) -> (r: Stage)
        ensures
            r == self@.stage,
    {
        self.stage
    }

    /// The work to do now.
    pub fn action(&self) -> (r: Action)
        requires
            self@.wf(),
            self@.stage != Stage::Finished,
        ensures
            r@ == self@.action_of(self@.stage),
    {
        match self.stage {
            Stage::OpenSource => Action::OpenSource,
            Stage::StartCompression => Action::StartCompression,
            Stage::GetDecoder => Action::GetDecoder,
            Stage::ReadImage => Action::ReadImage { index: self.params.index },
            Stage::ReadMetadata => Action::ReadMetadata { index: self.params.index },
            Stage::OpenPreview => Action::OpenPreview,
            Stage::ApplyScaling => Action::ApplyScaling,
            Stage::Rotate => {
                let image: &ImageFacts = self.facts.image.as_ref().unwrap();
                Action::Rotate {
                    area: image.region_of_interest(),
                    width: image.fuji_rotation_width,
                    quarter_turn: image.requires_quarter_turn(),
                }
            },
            Stage::AdoptRotation => Action::AdoptRotation {
                layout: RotatedLayout::of_size(self.facts.rotated.unwrap()),
            },
            Stage::CreateWriter => Action::CreateWriter { version: self.params.dng_version },
            Stage::WriteRawImage => {
                let photometric: RawPhotometricInterpretation = if self.is_rotating() {
                    RawPhotometricInterpretation::LinearRaw
                } else {
                    self.facts.image.as_ref().unwrap().photometric
                };
                Action::WriteRawImage {
                    on_root: !self.params.thumbnail,
                    crop: self.params.crop,
                    compression: self.params.compression,
                    photometric: photometric_conversion(self.params, photometric),
                    predictor: self.params.predictor,
                }
            },
            Stage::FetchRawTags => Action::FetchDirectory {
                directory: DecoderDirectory::VirtualDngRawTags,
            },
            Stage::CopyRawTags => Action::CopyRawTags,
            Stage::FinishRawImage => Action::FinishFrame { frame: 0 },
            Stage::FindPreview => Action::FindPreview { index: self.params.index },
            Stage::DevelopPreview => Action::DevelopPreview,
            Stage::WriteMediumPreview => Action::WritePreview {
                frame: 1,
                quality: self.params.jpeg_quality,
                bounds: self.params.preview_medium,
            },
            Stage::FinishMediumPreview => Action::FinishFrame { frame: 1 },
            Stage::WriteFullPreview => Action::WritePreview {
                frame: 2,
                quality: self.params.jpeg_quality,
                bounds: self.params.preview_full,
            },
            Stage::FinishFullPreview => Action::FinishFrame { frame: 2 },
            Stage::WriteThumbnail => Action::WriteThumbnail,
            Stage::LoadBaseTags => Action::LoadBaseTags,
            Stage::LoadMetadata => Action::LoadMetadata,
            Stage::CheckOrientation => Action::CheckRootTag { tag: ORIENTATION },
            Stage::SetOrientation => {
                let mut value: Vec<u16> = Vec::new();
                value.push(self.facts.image.as_ref().unwrap().orientation);
                assert(value@ =~= seq![self@.facts.image->0.orientation]);
                Action::SetRootTag { tag: ORIENTATION, value: TagValue::Short(value) }
            },
            Stage::FetchDngRootTags => Action::FetchDirectory {
                directory: DecoderDirectory::VirtualDngRootTags,
            },
            Stage::CopyDngRootTags => Action::CopyDngRootTags,
            Stage::FetchTiffRootTags => Action::FetchDirectory {
                directory: DecoderDirectory::Root,
            },
            Stage::CopyTiffRootTags => Action::CopyTiffRootTags {
                tags: select_carried_tags(self.facts.tiff_root.as_ref().unwrap()),
            },
            Stage::FetchMakerNoteSafety => Action::FetchEntry {
                directory: DecoderDirectory::VirtualDngRootTags,
                tag: MAKER_NOTE_SAFETY,
            },
            Stage::RemoveMakerNotes => Action::RemoveExifTag { tag: MAKER_NOTES },
            Stage::FetchXpacket => Action::FetchXpacket { index: self.params.index },
            Stage::WriteXpacket => Action::WriteXpacket,
            Stage::JoinCompression => Action::JoinCompression,
            Stage::FetchOriginal => Action::FetchOriginal,
            Stage::WriteOriginal => {
                let name: String = if self.is_converting() {
                    self.name.clone()
                } else {
                    self.facts.original_name.as_ref().unwrap().clone()
                };
                Action::WriteOriginal { name }
            },
            Stage::CarryCredits => Action::CopyTiffRootTags {
                tags: select_credit_tags(self.facts.tiff_root.as_ref().unwrap()),
            },
            Stage::SetArtist => Action::SetRootTag {
                tag: ARTIST,
                value: TagValue::Ascii(self.params.artist.as_ref().unwrap().clone()),
            },
            Stage::SetSoftware => Action::SetRootTag {
                tag: SOFTWARE,
                value: TagValue::Ascii(self.params.software.clone()),
            },
            Stage::SetModifyDate => Action::SetRootTag {
                tag: MODIFY_DATE,
                value: TagValue::Ascii(
                    modify_date(self.params.seed.as_str(), self.name.as_str()),
                ),
            },
            Stage::Close => Action::Close,
            Stage::ReadLastModified | Stage::Finished => Action::ReadLastModified,
        }
    }

    /// Whether `reply` is of the kind that answers the action of the current stage.
    pub fn accepts<E>(&self, reply: &Reply<E>) -> (r: bool)
        ensures
            r == answers(self@.stage, *reply),
    {
        if let Reply::Failed(_) = reply {
            return match self.stage {
                Stage::Finished => false,
                _ => true,
            };
        }
        match self.stage {
            Stage::ReadImage => matches!(reply, Reply::Image(_)),
            Stage::Rotate => matches!(reply, Reply::Rotated(_)),
            Stage::FetchRawTags | Stage::FindPreview | Stage::DevelopPreview
            | Stage::CheckOrientation | Stage::FetchDngRootTags | Stage::FetchXpacket =>
                matches!(reply, Reply::Present(_)),
            Stage::FetchTiffRootTags => matches!(reply, Reply::Tags(_)),
            Stage::FetchMakerNoteSafety => matches!(reply, Reply::Entry(_)),
            Stage::FetchOriginal => matches!(reply, Reply::Original(_)),
            Stage::ReadLastModified => matches!(reply, Reply::LastModified(_)),
            Stage::Finished => false,
            _ => matches!(reply, Reply::Done),
        }
    }

    /// Take note of a reply.
    fn learn<E>(&mut self, reply: Reply<E>)
        ensures
            final(self)@ == (Progress { facts: old(self)@.learned(reply), ..old(self)@ }),
    {
        match (self.stage, reply) {
            (Stage::ReadImage, Reply::Image(image)) => {
                self.facts.image = Some(image);
            },
            (Stage::OpenPreview, Reply::Done) => {
                self.facts.preview = PreviewSearch::Found;
            },
            (Stage::Rotate, Reply::Rotated(size)) => {
                self.facts.rotated = Some(size);
            },
            (Stage::FetchRawTags, Reply::Present(found)) => {
                self.facts.raw_tags = found;
            },
            (Stage::FindPreview, Reply::Present(found)) => {
                self.facts.preview =
                if found {
                    PreviewSearch::Found
                } else {
                    PreviewSearch::Absent
                };
            },
            (Stage::FindPreview, Reply::Failed(_)) => {
                self.facts.preview = PreviewSearch::Failed;
            },
            (Stage::DevelopPreview, Reply::Present(made)) => {
                self.facts.developed = made;
            },
            (Stage::CheckOrientation, Reply::Present(found)) => {
                self.facts.has_orientation = found;
            },
            (Stage::FetchDngRootTags, Reply::Present(found)) => {
                self.facts.dng_root_tags = found;
            },
            (Stage::FetchTiffRootTags, Reply::Tags(tags)) => {
                self.facts.tiff_root = tags;
            },
            (Stage::FetchMakerNoteSafety, Reply::Entry(entry)) => {
                self.facts.maker_note_safety = entry;
            },
            (Stage::FetchXpacket, Reply::Present(found)) => {
                self.facts.xpacket = found;
            },
            (Stage::FetchOriginal, Reply::Original(name)) => {
                self.facts.original_name = name;
            },
            (Stage::ReadLastModified, Reply::LastModified(time)) => {
                self.facts.last_modified = time;
            },
            _ => {},
        }
    }

    /// Take the reply to the current action.
    ///
    /// A failure ends the conversion at once and is handed back as it came, except where the
    /// stage tolerates it. Otherwise the next stage is taken up; once none is left, the result
    /// of the conversion is handed back.
    pub fn resume<E>(&mut self, reply: Reply<E>) -> (r: Option<Result<ConvertInfo, E>>)
        requires
            old(self)@.wf(),
            answers(old(self)@.stage, reply),
        ensures
            final(self)@.wf(),
            ends(old(self)@.stage, reply) ==> {
                &&& r == Some(Err::<ConvertInfo, E>(reply->Failed_0))
                &&& final(self)@ == (Progress { stage: Stage::Finished, ..old(self)@ })
            },
            !ends(old(self)@.stage, reply) ==> {
                &&& old(self)@.steps_to(reply, final(self)@)
                &&& final(self)@.stage != Stage::Finished ==> r is None
                &&& final(self)@.stage == Stage::Finished ==> r == Some(
                    Ok::<ConvertInfo, E>(
                        ConvertInfo { last_modified: final(self)@.facts.last_modified },
                    ),
                )
            },
    {
        let tolerant: bool = match self.stage {
            Stage::FindPreview | Stage::DevelopPreview | Stage::ReadLastModified => true,
            _ => false,
        };
        match reply {
            Reply::Failed(error) if !tolerant => {
                self.stage = Stage::Finished;
                Some(Err(error))
            },
            other => {
                self.learn(other);
                self.stage = self.next_stage();
                proof {
                    law_step_keeps_wf(old(self)@, reply, self@);
                }
                match self.stage {
                    Stage::Finished => Some(
                        Ok(ConvertInfo { last_modified: self.facts.last_modified }),
                    ),
                    _ => None,
                }
            },
        }
    }
}

} // verus!
