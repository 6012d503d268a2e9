//! What a conversion asks of the decoder and the writer, and what they answer.

use std::time::SystemTime;
use vstd::prelude::*;

use crate::image::{ImageFacts, RawPhotometricInterpretation, Rect, RotatedLayout};
use crate::params::{CropMode, Dim2, DngCompression, DngPhotometricConversion};
use crate::tags::{TagValue, TagValueView};

verus! {

/// A directory of tags that a decoder may offer.
#[derive(Clone, Copy, Debug, PartialEq, Eq, Structural)]
pub enum DecoderDirectory {
    /// DNG tags for the directory of the raw image.
    VirtualDngRawTags,
    /// DNG tags for the root directory.
    VirtualDngRootTags,
    /// The root directory of the input itself.
    Root,
}

/// One piece of outside work.
#[derive(Debug)]
pub enum Action {
    OpenSource,
    StartCompression,
    GetDecoder,
    ReadImage { index: usize },
    ReadMetadata { index: usize },
    OpenPreview,
    ApplyScaling,
    /// Demosaic `area`, then rotate by `width`; turn by a further 90 degrees if `quarter_turn`.
    Rotate { area: Rect, width: Option<usize>, quarter_turn: bool },
    /// Use the rotated samples as the raw image, in the given layout.
    AdoptRotation { layout: RotatedLayout },
    CreateWriter { version: [u8; 4] },
    /// Write frame 0: into the root directory itself, or into a directory below it.
    WriteRawImage {
        on_root: bool,
        crop: CropMode,
        compression: DngCompression,
        photometric: DngPhotometricConversion,
        predictor: u8,
    },
    FetchDirectory { directory: DecoderDirectory },
    /// Copy all tags of the directory fetched last into frame 0.
    CopyRawTags,
    FinishFrame { frame: u32 },
    FindPreview { index: usize },
    DevelopPreview,
    WritePreview { frame: u32, quality: u8, bounds: Dim2 },
    WriteThumbnail,
    LoadBaseTags,
    LoadMetadata,
    CheckRootTag { tag: u16 },
    SetRootTag { tag: u16, value: TagValue },
    /// Copy all tags of the directory fetched last into the root directory.
    CopyDngRootTags,
    /// Copy the named tags of the directory fetched last into the root directory.
    CopyTiffRootTags { tags: Vec<u16> },
    /// Look up one tag in a directory of the decoder.
    FetchEntry { directory: DecoderDirectory, tag: u16 },
    RemoveExifTag { tag: u16 },
    FetchXpacket { index: usize },
    WriteXpacket,
    JoinCompression,
    /// Look for the original that the input embeds.
    FetchOriginal,
    /// Embed the original under the given file name.
    WriteOriginal { name: String },
    Close,
    ReadLastModified,
}

/// What an [`Action`] stands for.
#[verifier::ext_equal]
pub enum ActionView {
    OpenSource,
    StartCompression,
    GetDecoder,
    ReadImage { index: usize },
    ReadMetadata { index: usize },
    OpenPreview,
    ApplyScaling,
    Rotate { area: Rect, width: Option<usize>, quarter_turn: bool },
    AdoptRotation {
        size: Dim2,
        active_area: Option<Rect>,
        cpp: usize,
        whitelevel: Seq<u32>,
        interpretation: RawPhotometricInterpretation,
    },
    CreateWriter { version: Seq<u8> },
    WriteRawImage {
        on_root: bool,
        crop: CropMode,
        compression: DngCompression,
        photometric: DngPhotometricConversion,
        predictor: u8,
    },
    FetchDirectory { directory: DecoderDirectory },
    CopyRawTags,
    FinishFrame { frame: u32 },
    FindPreview { index: usize },
    DevelopPreview,
    WritePreview { frame: u32, quality: u8, bounds: Dim2 },
    WriteThumbnail,
    LoadBaseTags,
    LoadMetadata,
    CheckRootTag { tag: u16 },
    SetRootTag { tag: u16, value: TagValueView },
    CopyDngRootTags,
    CopyTiffRootTags { tags: Seq<u16> },
    FetchEntry { directory: DecoderDirectory, tag: u16 },
    RemoveExifTag { tag: u16 },
    FetchXpacket { index: usize },
    WriteXpacket,
    JoinCompression,
    FetchOriginal,
    WriteOriginal { name: Seq<char> },
    Close,
    ReadLastModified,
}

impl View for Action {
    type V = ActionView;

    open spec fn view(&self) -> ActionView {
        match *self {
            Action::OpenSource => ActionView::OpenSource,
            Action::StartCompression => ActionView::StartCompression,
            Action::GetDecoder => ActionView::GetDecoder,
            Action::ReadImage { index } => ActionView::ReadImage { index },
            Action::ReadMetadata { index } => ActionView::ReadMetadata { index },
            Action::OpenPreview => ActionView::OpenPreview,
            Action::ApplyScaling => ActionView::ApplyScaling,
            Action::Rotate { area, width, quarter_turn } => ActionView::Rotate {
                area,
                width,
                quarter_turn,
            },
            Action::AdoptRotation { layout } => ActionView::AdoptRotation {
                size: layout.size,
                active_area: layout.active_area,
                cpp: layout.cpp,
                whitelevel: layout.whitelevel@,
                interpretation: layout.photometric,
            },
            Action::CreateWriter { version } => ActionView::CreateWriter { version: version@ },
            Action::WriteRawImage { on_root, crop, compression, photometric, predictor } => {
                ActionView::WriteRawImage { on_root, crop, compression, photometric, predictor }
            },
            Action::FetchDirectory { directory } => ActionView::FetchDirectory { directory },
            Action::CopyRawTags => ActionView::CopyRawTags,
            Action::FinishFrame { frame } => ActionView::FinishFrame { frame },
            Action::FindPreview { index } => ActionView::FindPreview { index },
            Action::DevelopPreview => ActionView::DevelopPreview,
            Action::WritePreview { frame, quality, bounds } => ActionView::WritePreview {
                frame,
                quality,
                bounds,
            },
            Action::WriteThumbnail => ActionView::WriteThumbnail,
            Action::LoadBaseTags => ActionView::LoadBaseTags,
            Action::LoadMetadata => ActionView::LoadMetadata,
            Action::CheckRootTag { tag } => ActionView::CheckRootTag { tag },
            Action::SetRootTag { tag, value } => ActionView::SetRootTag { tag, value: value@ },
            Action::CopyDngRootTags => ActionView::CopyDngRootTags,
            Action::CopyTiffRootTags { tags } => ActionView::CopyTiffRootTags { tags: tags@ },
            Action::FetchEntry { directory, tag } => ActionView::FetchEntry { directory, tag },
            Action::RemoveExifTag { tag } => ActionView::RemoveExifTag { tag },
            Action::FetchXpacket { index } => ActionView::FetchXpacket { index },
            Action::WriteXpacket => ActionView::WriteXpacket,
            Action::JoinCompression => ActionView::JoinCompression,
            Action::FetchOriginal => ActionView::FetchOriginal,
            Action::WriteOriginal { name } => ActionView::WriteOriginal { name: name@ },
            Action::Close => ActionView::Close,
            Action::ReadLastModified => ActionView::ReadLastModified,
        }
    }
}

/// An action stands for its own kind of work, with its own numbers, names and settings.
pub proof fn law_action_stands_for_content(action: Action)
    ensures
        match action {
            Action::OpenSource => action@ is OpenSource,
            Action::StartCompression => action@ is StartCompression,
            Action::GetDecoder => action@ is GetDecoder,
            Action::ReadImage { index } => action@ == (ActionView::ReadImage { index }),
            Action::ReadMetadata { index } => action@ == (ActionView::ReadMetadata { index }),
            Action::OpenPreview => action@ is OpenPreview,
            Action::ApplyScaling => action@ is ApplyScaling,
            Action::Rotate { area, width, quarter_turn } => action@ == (ActionView::Rotate {
                area,
                width,
                quarter_turn,
            }),
            Action::AdoptRotation { layout } => action@ == (ActionView::AdoptRotation {
                size: layout.size,
                active_area: layout.active_area,
                cpp: layout.cpp,
                whitelevel: layout.whitelevel@,
                interpretation: layout.photometric,
            }),
            Action::CreateWriter { version } => action@ == (ActionView::CreateWriter {
                version: version@,
            }),
            Action::WriteRawImage { on_root, crop, compression, photometric, predictor } => action@
                == (ActionView::WriteRawImage {
                on_root,
                crop,
                compression,
                photometric,
                predictor,
            }),
            Action::FetchDirectory { directory } => action@ == (ActionView::FetchDirectory {
                directory,
            }),
            Action::CopyRawTags => action@ is CopyRawTags,
            Action::FinishFrame { frame } => action@ == (ActionView::FinishFrame { frame }),
            Action::FindPreview { index } => action@ == (ActionView::FindPreview { index }),
            Action::DevelopPreview => action@ is DevelopPreview,
            Action::WritePreview { frame, quality, bounds } => action@
                == (ActionView::WritePreview { frame, quality, bounds }),
            Action::WriteThumbnail => action@ is WriteThumbnail,
            Action::LoadBaseTags => action@ is LoadBaseTags,
            Action::LoadMetadata => action@ is LoadMetadata,
            Action::CheckRootTag { tag } => action@ == (ActionView::CheckRootTag { tag }),
            Action::SetRootTag { tag, value } => action@ == (ActionView::SetRootTag {
                tag,
                value: value@,
            }),
            Action::CopyDngRootTags => action@ is CopyDngRootTags,
            Action::CopyTiffRootTags { tags } => action@ == (ActionView::CopyTiffRootTags {
                tags: tags@,
            }),
            Action::FetchEntry { directory, tag } => action@ == (ActionView::FetchEntry {
                directory,
                tag,
            }),
            Action::RemoveExifTag { tag } => action@ == (ActionView::RemoveExifTag { tag }),
            Action::FetchXpacket { index } => action@ == (ActionView::FetchXpacket { index }),
            Action::WriteXpacket => action@ is WriteXpacket,
            Action::JoinCompression => action@ is JoinCompression,
            Action::FetchOriginal => action@ is FetchOriginal,
            Action::WriteOriginal { name } => action@ == (ActionView::WriteOriginal {
                name: name@,
            }),
            Action::Close => action@ is Close,
            Action::ReadLastModified => action@ is ReadLastModified,
        },
{
}

/// The answer to an action. `E` is the error type of the outside work.
#[derive(Debug)]
pub enum Reply<E> {
    /// The work is done.
    Done,
    /// The raw image was decoded.
    Image(ImageFacts),
    /// The image was rotated, and has this size now.
    Rotated(Dim2),
    /// Whether what was asked for is there.
    Present(bool),
    /// The tags of the directory, if there is one.
    Tags(Option<Vec<u16>>),
    /// The value of the tag, if there is one.
    Entry(Option<TagValue>),
    /// The file name recorded with the embedded original, if there is one.
    Original(Option<String>),
    /// The timestamp of the metadata, if there is one.
    LastModified(Option<SystemTime>),
    /// The work failed.
    Failed(E),
}

} // verus!
