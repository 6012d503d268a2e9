//! The stages of a conversion and their order.

use vstd::prelude::*;

verus! {

/// A stage of a conversion. The stages stand here in the order in which they are taken up.
#[derive(Clone, Copy, Debug, PartialEq, Eq, Structural)]
pub enum Stage {
    /// Open the input file.
    OpenSource,
    /// Start compressing the input, to be embedded later.
    StartCompression,
    /// Find the decoder for the input.
    GetDecoder,
    /// Decode the raw image.
    ReadImage,
    /// Decode the metadata.
    ReadMetadata,
    /// Open the edited preview image.
    OpenPreview,
    /// Scale the samples of the raw image.
    ApplyScaling,
    /// Demosaic the raw image and normalize its rotation.
    Rotate,
    /// Take the rotated image for the raw image.
    AdoptRotation,
    /// Start the DNG file.
    CreateWriter,
    /// Write the raw image, as frame 0.
    WriteRawImage,
    /// Ask the decoder for tags of the raw directory.
    FetchRawTags,
    /// Copy the decoder's tags into the raw directory.
    CopyRawTags,
    /// Finish frame 0.
    FinishRawImage,
    /// Ask the decoder for a preview image.
    FindPreview,
    /// Develop a preview image from the raw image.
    DevelopPreview,
    /// Write the medium preview, as frame 1.
    WriteMediumPreview,
    /// Finish frame 1.
    FinishMediumPreview,
    /// Write the full preview, as frame 2.
    WriteFullPreview,
    /// Finish frame 2.
    FinishFullPreview,
    /// Write the thumbnail.
    WriteThumbnail,
    /// Fill in the base tags.
    LoadBaseTags,
    /// Fill in the metadata tags.
    LoadMetadata,
    /// Ask whether the root directory has an orientation by now.
    CheckOrientation,
    /// Set the orientation.
    SetOrientation,
    /// Ask the decoder for DNG tags of the root directory.
    FetchDngRootTags,
    /// Copy the decoder's DNG tags into the root directory.
    CopyDngRootTags,
    /// Ask the decoder for the input's own root directory.
    FetchTiffRootTags,
    /// Copy the carried tags of that directory.
    CopyTiffRootTags,
    /// Ask the decoder whether the maker note is safe.
    FetchMakerNoteSafety,
    /// Remove the maker note.
    RemoveMakerNotes,
    /// Ask the decoder for an XMP packet.
    FetchXpacket,
    /// Write the XMP packet.
    WriteXpacket,
    /// Wait for the compressed input.
    JoinCompression,
    /// Ask the decoder for the original that the input embeds.
    FetchOriginal,
    /// Embed the original.
    WriteOriginal,
    /// Carry over artist, software and modification date of the input.
    CarryCredits,
    /// Set the artist.
    SetArtist,
    /// Set the software.
    SetSoftware,
    /// Set the modification date.
    SetModifyDate,
    /// Finish the file.
    Close,
    /// Read the timestamp of the input's metadata.
    ReadLastModified,
    /// Nothing is left to do.
    Finished,
}

/// Rank of [`Stage::Finished`], the last stage.
pub const LAST_RANK: u8 = 42;

impl Stage {
    /// Place of the stage in the order, counted from zero.
    pub open spec fn rank(self) -> int {
        match self {
            Stage::OpenSource => 0,
            Stage::StartCompression => 1,
            Stage::GetDecoder => 2,
            Stage::ReadImage => 3,
            Stage::ReadMetadata => 4,
            Stage::OpenPreview => 5,
            Stage::ApplyScaling => 6,
            Stage::Rotate => 7,
            Stage::AdoptRotation => 8,
            Stage::CreateWriter => 9,
            Stage::WriteRawImage => 10,
            Stage::FetchRawTags => 11,
            Stage::CopyRawTags => 12,
            Stage::FinishRawImage => 13,
            Stage::FindPreview => 14,
            Stage::DevelopPreview => 15,
            Stage::WriteMediumPreview => 16,
            Stage::FinishMediumPreview => 17,
            Stage::WriteFullPreview => 18,
            Stage::FinishFullPreview => 19,
            Stage::WriteThumbnail => 20,
            Stage::LoadBaseTags => 21,
            Stage::LoadMetadata => 22,
            Stage::CheckOrientation => 23,
            Stage::SetOrientation => 24,
            Stage::FetchDngRootTags => 25,
            Stage::CopyDngRootTags => 26,
            Stage::FetchTiffRootTags => 27,
            Stage::CopyTiffRootTags => 28,
            Stage::FetchMakerNoteSafety => 29,
            Stage::RemoveMakerNotes => 30,
            Stage::FetchXpacket => 31,
            Stage::WriteXpacket => 32,
            Stage::JoinCompression => 33,
            Stage::FetchOriginal => 34,
            Stage::WriteOriginal => 35,
            Stage::CarryCredits => 36,
            Stage::SetArtist => 37,
            Stage::SetSoftware => 38,
            Stage::SetModifyDate => 39,
            Stage::Close => 40,
            Stage::ReadLastModified => 41,
            Stage::Finished => 42,
        }
    }

    /// The stage that follows in the order.
    pub fn successor(self) -> (r: Stage)
        requires
            self != Stage::Finished,
        ensures
            r.rank() == self.rank() + 1,
    {
        match self {
            Stage::OpenSource => Stage::StartCompression,
            Stage::StartCompression => Stage::GetDecoder,
            Stage::GetDecoder => Stage::ReadImage,
            Stage::ReadImage => Stage::ReadMetadata,
            Stage::ReadMetadata => Stage::OpenPreview,
            Stage::OpenPreview => Stage::ApplyScaling,
            Stage::ApplyScaling => Stage::Rotate,
            Stage::Rotate => Stage::AdoptRotation,
            Stage::AdoptRotation => Stage::CreateWriter,
            Stage::CreateWriter => Stage::WriteRawImage,
            Stage::WriteRawImage => Stage::FetchRawTags,
            Stage::FetchRawTags => Stage::CopyRawTags,
            Stage::CopyRawTags => Stage::FinishRawImage,
            Stage::FinishRawImage => Stage::FindPreview,
            Stage::FindPreview => Stage::DevelopPreview,
            Stage::DevelopPreview => Stage::WriteMediumPreview,
            Stage::WriteMediumPreview => Stage::FinishMediumPreview,
            Stage::FinishMediumPreview => Stage::WriteFullPreview,
            Stage::WriteFullPreview => Stage::FinishFullPreview,
            Stage::FinishFullPreview => Stage::WriteThumbnail,
            Stage::WriteThumbnail => Stage::LoadBaseTags,
            Stage::LoadBaseTags => Stage::LoadMetadata,
            Stage::LoadMetadata => Stage::CheckOrientation,
            Stage::CheckOrientation => Stage::SetOrientation,
            Stage::SetOrientation => Stage::FetchDngRootTags,
            Stage::FetchDngRootTags => Stage::CopyDngRootTags,
            Stage::CopyDngRootTags => Stage::FetchTiffRootTags,
            Stage::FetchTiffRootTags => Stage::CopyTiffRootTags,
            Stage::CopyTiffRootTags => Stage::FetchMakerNoteSafety,
            Stage::FetchMakerNoteSafety => Stage::RemoveMakerNotes,
            Stage::RemoveMakerNotes => Stage::FetchXpacket,
            Stage::FetchXpacket => Stage::WriteXpacket,
            Stage::WriteXpacket => Stage::JoinCompression,
            Stage::JoinCompression => Stage::FetchOriginal,
            Stage::FetchOriginal => Stage::WriteOriginal,
            Stage::WriteOriginal => Stage::CarryCredits,
            Stage::CarryCredits => Stage::SetArtist,
            Stage::SetArtist => Stage::SetSoftware,
            Stage::SetSoftware => Stage::SetModifyDate,
            Stage::SetModifyDate => Stage::Close,
            Stage::Close => Stage::ReadLastModified,
            _ => Stage::Finished,
        }
    }
}

/// No two stages share a rank, and `Finished` has the highest.
pub proof fn law_rank_identifies_stage(a: Stage, b: Stage)
    ensures
        a.rank() == b.rank() ==> a == b,
        0 <= a.rank() <= LAST_RANK,
        a.rank() == LAST_RANK <==> a == Stage::Finished,
{
}

} // verus!
