//! The caption tracks that a metadata document lists, and the choice of one.
//!
//! The list may stand in two places of the document and a track may name
//! its address under two keys; in both cases the places are tried in a fixed
//! order and the first that is there is taken.

use vstd::prelude::*;
use vstd::string::StringExecFns;
use crate::error::{ErrorView, TranscriptError};
use crate::json::Json;

verus! {

/// A caption track: its language and the address to fetch it from.
#[derive(Clone, Debug, PartialEq, Eq)]
pub struct CaptionTrack {
    pub lang: String,
    pub url: String,
}

/// A caption track as a mathematical value.
pub struct CaptionTrackView {
    pub lang: Seq<char>,
    pub url: Seq<char>,
}

impl View for CaptionTrack {
    type V = CaptionTrackView;

    open spec fn view(&self) -> CaptionTrackView {
        CaptionTrackView { lang: self.lang@, url: self.url@ }
    }
}

/// The node that lists the tracks: the member `playerCaptionsTracklistRenderer`
/// of the member `captions`, or else that member of the document itself.
pub open spec fn track_list_node(doc: Json) -> Option<Json> {
    let nested = match doc.member("captions"@) {
        Some(captions) => captions.member("playerCaptionsTracklistRenderer"@),
        None => None,
    };
    if nested is Some {
        nested
    } else {
        doc.member("playerCaptionsTracklistRenderer"@)
    }
}

/// Whether the document reports the video as playable: its member
/// `playabilityStatus` has a member `status` that is the string `OK`.
pub open spec fn is_playable(doc: Json) -> bool {
    match doc.member("playabilityStatus"@) {
        Some(status) => status.member_text("status"@) == Some("OK"@),
        None => false,
    }
}

/// The tracks of a node: the items of its member `captionTracks`, where
/// that member is an array.
pub open spec fn listed_tracks(node: Json) -> Option<Seq<Json>> {
    match node.member("captionTracks"@) {
        Some(tracks) => tracks.items(),
        None => None,
    }
}

/// Whether a track is in English: its member `languageCode` is the string
/// `en`.
pub open spec fn is_english(track: Json) -> bool {
    track.member_text("languageCode"@) == Some("en"@)
}

/// The index of the first English track among `tracks[i..]`.
pub open spec fn first_english(tracks: Seq<Json>, i: int) -> Option<int>
    decreases tracks.len() - i,
{
    if i < 0 || i >= tracks.len() {
        None
    } else if is_english(tracks[i]) {
        Some(i)
    } else {
        first_english(tracks, i + 1)
    }
}

/// The index of the track that is chosen: the first English one, or the
/// first of all where none is English.
pub open spec fn preferred(tracks: Seq<Json>) -> int {
    match first_english(tracks, 0) {
        Some(i) => i,
        None => 0,
    }
}

/// The language of a track: its member `languageCode`, or `en` where that
/// is no string.
pub open spec fn track_language(track: Json) -> Seq<char> {
    match track.member_text("languageCode"@) {
        Some(lang) => lang,
        None => "en"@,
    }
}

/// The address of a track: its member `baseUrl`, or `url` where it has no
/// `baseUrl`, if that member is a string.
pub open spec fn track_address(track: Json) -> Option<Seq<char>> {
    let named = if track.member("baseUrl"@) is Some {
        track.member("baseUrl"@)
    } else {
        track.member("url"@)
    };
    match named {
        Some(v) => v.text(),
        None => None,
    }
}

/// A track of the document as a caption track.
pub open spec fn track_of(track: Json) -> Result<CaptionTrackView, ErrorView> {
    match track_address(track) {
        Some(url) => Ok(CaptionTrackView { lang: track_language(track), url }),
        None => Err(ErrorView::TrackAddressMissing),
    }
}

/// The track that a metadata document leads to. Without a node that lists
/// tracks the retrieval ends: with `TranscriptsDisabled` where the video is
/// playable, with `TranscriptUnavailable` where it is not. A node without a
/// list, or with an empty one, ends it with `TranscriptsDisabled`. Else the
/// preferred track is taken.
pub open spec fn chosen_track(doc: Json) -> Result<CaptionTrackView, ErrorView> {
    match track_list_node(doc) {
        None => if is_playable(doc) {
            Err(ErrorView::TranscriptsDisabled)
        } else {
            Err(ErrorView::TranscriptUnavailable)
        },
        Some(node) => match listed_tracks(node) {
            None => Err(ErrorView::TranscriptsDisabled),
            Some(tracks) => if tracks.len() == 0 {
                Err(ErrorView::TranscriptsDisabled)
            } else {
                track_of(tracks[preferred(tracks)])
            },
        },
    }
}

/// The node that lists the tracks.
pub fn find_track_list(doc: &Json) -> (r: Option<&Json>)
    ensures
        match r {
            Some(node) => track_list_node(*doc) == Some(*node),
            None => track_list_node(*doc) is None,
        },
{
    let nested = match doc.get("captions") {
        Some(captions) => captions.get("playerCaptionsTracklistRenderer"),
        None => None,
    };
    match nested {
        Some(node) => Some(node),
        None => doc.get("playerCaptionsTracklistRenderer"),
    }
}

/// Whether the document reports the video as playable.
pub fn reports_playable(doc: &Json) -> (b: bool)
    ensures
        b == is_playable(*doc),
{
    match doc.get("playabilityStatus") {
        Some(status) => match status.get_str("status") {
            Some(text) => {
                let same = String::from_str(text) == String::from_str("OK");
                same
            },
            None => false,
        },
        None => false,
    }
}

/// Whether a track is in English.
pub fn speaks_english(track: &Json) -> (b: bool)
    ensures
        b == is_english(*track),
{
    match track.get_str("languageCode") {
        Some(lang) => {
            let same = String::from_str(lang) == String::from_str("en");
            same
        },
        None => false,
    }
}

/// The index of the track that is chosen among `tracks`, if there is any
/// track.
pub fn select_track(tracks: &Vec<Json>) -> (r: Option<usize>)
    ensures
        match r {
            Some(i) => i == preferred(tracks@) && i < tracks.len(),
            None => tracks.len() == 0,
        },
{
    if tracks.len() == 0 {
        return None;
    }
    let mut i: usize = 0;
    while i < tracks.len()
        invariant
            i <= tracks.len(),
            first_english(tracks@, 0) == first_english(tracks@, i as int),
        decreases tracks.len() - i,
    {
        if speaks_english(&tracks[i]) {
            return Some(i);
        }
        i += 1;
    }
    Some(0)
}

/// A track of the document as a caption track.
pub fn read_track(track: &Json) -> (r: Result<CaptionTrack, TranscriptError>)
    ensures
        match r {
            Ok(t) => track_of(*track) == Ok::<CaptionTrackView, ErrorView>(t@),
            Err(e) => track_of(*track) == Err::<CaptionTrackView, ErrorView>(e@),
        },
{
    let named = match track.get("baseUrl") {
        Some(v) => Some(v),
        None => track.get("url"),
    };
    let address = match named {
        Some(v) => v.as_str(),
        None => None,
    };
    match address {
        Some(url) => {
            let lang = match track.get_str("languageCode") {
                Some(lang) => String::from_str(lang),
                None => String::from_str("en"),
            };
            Ok(CaptionTrack { lang, url: String::from_str(url) })
        },
        None => Err(TranscriptError::TrackAddressMissing),
    }
}

/// Chooses the caption track that a metadata document leads to.
pub fn choose_track(doc: &Json) -> (r: Result<CaptionTrack, TranscriptError>)
    ensures
        match r {
            Ok(t) => chosen_track(*doc) == Ok::<CaptionTrackView, ErrorView>(t@),
            Err(e) => chosen_track(*doc) == Err::<CaptionTrackView, ErrorView>(e@),
        },
{
    match find_track_list(doc) {
        None => {
            if reports_playable(doc) {
                Err(TranscriptError::TranscriptsDisabled)
            } else {
                Err(TranscriptError::TranscriptUnavailable)
            }
        },
        Some(node) => {
            let listed = match node.get("captionTracks") {
                Some(tracks) => tracks.as_array(),
                None => None,
            };
            match listed {
                None => Err(TranscriptError::TranscriptsDisabled),
                Some(tracks) => match select_track(tracks) {
                    None => Err(TranscriptError::TranscriptsDisabled),
                    Some(i) => read_track(&tracks[i]),
                },
            }
        },
    }
}

/// The chosen track is the first English one: a track that is English and
/// has no English track before it is chosen, wherever it stands.
pub proof fn lemma_english_is_chosen(tracks: Seq<Json>, i: int)
    requires
        0 <= i < tracks.len(),
        is_english(tracks[i]),
        forall|j: int| 0 <= j < i ==> !is_english(#[trigger] tracks[j]),
    ensures
        preferred(tracks) == i,
{
    lemma_first_english_from(tracks, i, 0);
}

proof fn lemma_first_english_from(tracks: Seq<Json>, i: int, k: int)
    requires
        0 <= k <= i < tracks.len(),
        is_english(tracks[i]),
        forall|j: int| 0 <= j < i ==> !is_english(#[trigger] tracks[j]),
    ensures
        first_english(tracks, k) == Some(i),
    decreases i - k,
{
    if k < i {
        lemma_first_english_from(tracks, i, k + 1);
    }
}

/// Where no track is English, the first track is chosen.
pub proof fn lemma_first_is_chosen_otherwise(tracks: Seq<Json>)
    requires
        forall|j: int| 0 <= j < tracks.len() ==> !is_english(#[trigger] tracks[j]),
    ensures
        preferred(tracks) == 0,
{
    lemma_no_english_from(tracks, 0);
}

proof fn lemma_no_english_from(tracks: Seq<Json>, k: int)
    requires
        0 <= k,
        forall|j: int| 0 <= j < tracks.len() ==> !is_english(#[trigger] tracks[j]),
    ensures
        first_english(tracks, k) is None,
    decreases tracks.len() - k,
{
    if k < tracks.len() {
        lemma_no_english_from(tracks, k + 1);
    }
}

/// A document whose track list is empty leads to `TranscriptsDisabled`,
/// whatever it reports of the video's playability.
pub proof fn lemma_empty_list_is_disabled(doc: Json, node: Json)
    requires
        track_list_node(doc) == Some(node),
        listed_tracks(node) == Some(Seq::<Json>::empty()),
    ensures
        chosen_track(doc) == Err::<CaptionTrackView, ErrorView>(ErrorView::TranscriptsDisabled),
{
}

/// A document without a node that lists tracks leads to
/// `TranscriptsDisabled` where its status is `OK`, and to
/// `TranscriptUnavailable` for any other status and for none.
pub proof fn lemma_missing_list(doc: Json)
    requires
        track_list_node(doc) is None,
    ensures
        is_playable(doc) ==> chosen_track(doc) == Err::<CaptionTrackView, ErrorView>(
            ErrorView::TranscriptsDisabled,
        ),
        !is_playable(doc) ==> chosen_track(doc) == Err::<CaptionTrackView, ErrorView>(
            ErrorView::TranscriptUnavailable,
        ),
{
}

} // verus!
