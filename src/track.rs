use vstd::prelude::*;

use crate::crypto::{decrypt_buff, hex_bytes, keystream_applied, valid_key, zero_iv, DecryptError};
use crate::metadata::{parse_specs, specs_of};
use crate::models::ParsedAlbumMeta;
use crate::naming::{parse_track_template, sanitized, substituted, track_pairs};
use crate::tags::{tag_plan, TagPlan};
use crate::text::{decimal, format_track_number, opt_view, zero_padded};

verus! {

/// Why one track was not produced.
#[derive(Debug, Clone, Copy, PartialEq, Eq, Structural)]
pub enum TrackError {
    /// The download descriptor could not be fetched.
    Descriptor,
    UnknownCodec,
    /// The existence check or a write failed.
    Filesystem,
    Download,
    Decryption(DecryptError),
    Remux,
    Tagging,
    /// An event that the current stage does not expect.
    OutOfOrder,
}

/// How one track ended.
#[derive(Debug, Clone, Copy, PartialEq, Eq, Structural)]
pub enum TrackOutcome {
    /// Written and tagged.
    Done,
    /// A file was already at the destination; nothing was written.
    AlreadyPresent,
    Failed(TrackError),
}

/// Where a track job stands.
#[derive(Debug, Clone, Copy, PartialEq, Eq, Structural)]
pub enum Stage {
    Start,
    Resolving,
    Checking,
    CheckingFallback,
    Downloading,
    Writing,
    Remuxing,
    FetchingLyrics,
    WritingLyrics,
    Tagging,
    Finished,
}

/// What the caller reports back after performing an action.
#[derive(Debug, Clone)]
pub enum TrackEvent {
    Start,
    Descriptor { codec: String, bitrate: u16, url: String, key: String },
    /// Whether a file exists at the destination.
    Exists(bool),
    /// The destination path is longer than the file system allows.
    PathTooLong,
    Downloaded(Vec<u8>),
    Done,
    LyricsFetched(String),
    Failed,
}

/// What the caller should do next. Paths are a file stem and an extension
/// inside the album folder.
#[derive(Debug, Clone)]
pub enum TrackAction {
    FetchDescriptor,
    CheckExists { stem: String, ext: String },
    Download { url: String },
    WriteAudio { stem: String, ext: String, bytes: Vec<u8> },
    Remux { stem: String, ext: String },
    FetchLyrics { timed: bool },
    /// A sidecar lyrics file with the same stem; failing to write it is not fatal.
    WriteLyrics { stem: String, text: String },
    WriteTags { stem: String, ext: String, plan: TagPlan },
    Finish(TrackOutcome),
}

/// The file name of a stem with an extension: `stem.ext`, whatever dots the
/// stem already holds.
pub open spec fn file_name_of(stem: Seq<char>, ext: Seq<char>) -> Seq<char> {
    stem + seq!['.'] + ext
}

/// The file name of a stem with an extension.
pub fn file_name(stem: &str, ext: &str) -> (r: String)
    ensures
        r@ == file_name_of(stem@, ext@),
{
    let mut out = stem.to_string();
    out.append(".");
    out.append(ext);
    proof {
        reveal_strlit(".");
        assert(out@ =~= file_name_of(stem@, ext@));
    }
    out
}

/// Whether an action writes to disk.
pub open spec fn writes(a: TrackAction) -> bool {
    a is WriteAudio || a is WriteLyrics || a is WriteTags
}

/// One track's way from a track id to a tagged file.
pub struct TrackJob {
    pub meta: ParsedAlbumMeta,
    pub track_template: String,
    pub write_lyrics: bool,
    pub stage: Stage,
    pub codec: String,
    pub label: String,
    pub ext: String,
    pub url: String,
    pub key: String,
    pub stem: String,
    pub fallback: String,
}

/// The zero-padded track number of the metadata.
pub open spec fn padded_number(m: ParsedAlbumMeta) -> Seq<char> {
    zero_padded(decimal(m.track_num as nat), decimal(m.track_total as nat).len())
}

/// The file stem that the template gives a track.
pub open spec fn track_stem(template: Seq<char>, m: ParsedAlbumMeta) -> Seq<char> {
    sanitized(substituted(template, track_pairs(m, padded_number(m))))
}

/// Whether a stage has a transition for the event; any other event ends the
/// job as out of order. Lyrics and tagging take every event: a failed lyrics
/// fetch or sidecar write is not fatal, and any answer but success from the
/// tag writer is a tagging failure.
pub open spec fn expects(stage: Stage, ev: TrackEvent) -> bool {
    match stage {
        Stage::Start => ev is Start,
        Stage::Resolving => ev is Descriptor || ev is Failed,
        Stage::Checking | Stage::CheckingFallback => ev is Exists || ev is PathTooLong
            || ev is Failed,
        Stage::Downloading => ev is Downloaded || ev is Failed,
        Stage::Writing | Stage::Remuxing => ev is Done || ev is Failed,
        Stage::FetchingLyrics | Stage::WritingLyrics | Stage::Tagging => true,
        Stage::Finished => false,
    }
}

/// The transition of a job on an event, and the action that comes with it.
pub open spec fn step_spec(
    old: TrackJob,
    ev: TrackEvent,
    new: TrackJob,
    a: TrackAction,
) -> bool {
    &&& new.track_template@ == old.track_template@
    &&& new.write_lyrics == old.write_lyrics
    &&& old.stage != Stage::FetchingLyrics ==> new.meta == old.meta
    &&& old.stage != Stage::Resolving ==> (new.codec@ == old.codec@ && new.ext@ == old.ext@
        && new.url@ == old.url@ && new.key@ == old.key@)
    &&& (old.stage != Stage::Resolving && !(old.stage == Stage::Checking && ev is PathTooLong))
        ==> new.stem@ == old.stem@
    &&& !expects(old.stage, ev) ==> a == TrackAction::Finish(
        TrackOutcome::Failed(TrackError::OutOfOrder),
    )
    &&& (old.stage == Stage::FetchingLyrics && !(ev is LyricsFetched)) ==> new.meta == old.meta
    &&& (old.stage == Stage::Start && ev is Start) ==> (a is FetchDescriptor && new.stage
        == Stage::Resolving)
    &&& (old.stage == Stage::Resolving && ev is Descriptor) ==> {
        let codec = ev->Descriptor_codec@;
        let bitrate = ev->Descriptor_bitrate;
        match specs_of(codec, bitrate) {
            None => a == TrackAction::Finish(TrackOutcome::Failed(TrackError::UnknownCodec))
                && new.stage == Stage::Finished,
            Some(spec) => {
                &&& new.stage == Stage::Checking
                &&& new.codec@ == codec
                &&& new.label@ == spec.0
                &&& new.ext@ == spec.1
                &&& new.url@ == ev->Descriptor_url@
                &&& new.key@ == ev->Descriptor_key@
                &&& new.stem@ == track_stem(old.track_template@, old.meta)
                &&& new.fallback@ == padded_number(old.meta)
                &&& a is CheckExists && a->CheckExists_stem@ == new.stem@
                    && a->CheckExists_ext@ == new.ext@
            },
        }
    }
    &&& (old.stage == Stage::Resolving && ev is Failed) ==> a == TrackAction::Finish(
        TrackOutcome::Failed(TrackError::Descriptor),
    )
    &&& ((old.stage == Stage::Checking || old.stage == Stage::CheckingFallback) && ev == TrackEvent::Exists(true)) ==> (a == TrackAction::Finish(TrackOutcome::AlreadyPresent)
        && new.stage == Stage::Finished)
    &&& ((old.stage == Stage::Checking || old.stage == Stage::CheckingFallback) && ev == TrackEvent::Exists(false)) ==> (a is Download && a->Download_url@ == old.url@
        && new.stage == Stage::Downloading && new.stem@ == old.stem@ && new.ext@ == old.ext@)
    &&& (old.stage == Stage::Checking && ev is PathTooLong) ==> (new.stage
        == Stage::CheckingFallback && new.stem@ == old.fallback@ && a is CheckExists
        && a->CheckExists_stem@ == old.fallback@ && a->CheckExists_ext@ == old.ext@)
    &&& (old.stage == Stage::CheckingFallback && ev is PathTooLong) ==> a == TrackAction::Finish(
        TrackOutcome::Failed(TrackError::Filesystem),
    )
    &&& ((old.stage == Stage::Checking || old.stage == Stage::CheckingFallback) && ev is Failed)
        ==> a == TrackAction::Finish(TrackOutcome::Failed(TrackError::Filesystem))
    &&& (old.stage == Stage::Downloading && ev is Downloaded) ==> if valid_key(old.key@) {
        &&& new.stage == Stage::Writing
        &&& a is WriteAudio
        &&& a->WriteAudio_stem@ == old.stem@
        &&& a->WriteAudio_ext@ == old.ext@
        &&& a->WriteAudio_bytes@ == keystream_applied(
            ev->Downloaded_0@,
            hex_bytes(old.key@),
            zero_iv(),
        )
    } else {
        &&& new.stage == Stage::Finished
        &&& a is Finish && a->Finish_0 is Failed && a->Finish_0->Failed_0 is Decryption
    }
    &&& (old.stage == Stage::Downloading && ev is Failed) ==> a == TrackAction::Finish(
        TrackOutcome::Failed(TrackError::Download),
    )
    &&& (old.stage == Stage::Writing && ev is Done) ==> (new.stage == Stage::Remuxing
        && a is Remux && a->Remux_stem@ == old.stem@ && a->Remux_ext@ == old.ext@)
    &&& (old.stage == Stage::Writing && ev is Failed) ==> a == TrackAction::Finish(
        TrackOutcome::Failed(TrackError::Filesystem),
    )
    &&& (old.stage == Stage::Remuxing && ev is Done) ==> match old.meta.lyrics_avail {
        Some(timed) => new.stage == Stage::FetchingLyrics && a == TrackAction::FetchLyrics {
            timed,
        },
        None => tags_next(old, new, a),
    }
    &&& (old.stage == Stage::Remuxing && ev is Failed) ==> a == TrackAction::Finish(
        TrackOutcome::Failed(TrackError::Remux),
    )
    &&& (old.stage == Stage::FetchingLyrics && ev is LyricsFetched) ==> {
        let text = ev->LyricsFetched_0@;
        let timed = old.meta.lyrics_avail == Some(true);
        &&& new.meta == if timed {
            (ParsedAlbumMeta { timed_lyrics: Some(ev->LyricsFetched_0), ..old.meta })
        } else {
            (ParsedAlbumMeta { untimed_lyrics: Some(ev->LyricsFetched_0), ..old.meta })
        }
        &&& if timed && old.write_lyrics {
            new.stage == Stage::WritingLyrics && a is WriteLyrics && a->WriteLyrics_stem@
                == old.stem@ && a->WriteLyrics_text@ == text
        } else {
            tags_next(new, new, a)
        }
    }
    &&& (old.stage == Stage::FetchingLyrics && !(ev is LyricsFetched)) ==> tags_next(old, new, a)
    &&& old.stage == Stage::WritingLyrics ==> tags_next(old, new, a)
    &&& (old.stage == Stage::Tagging && ev is Done) ==> a == TrackAction::Finish(
        TrackOutcome::Done,
    )
    &&& (old.stage == Stage::Tagging && !(ev is Done)) ==> a == TrackAction::Finish(
        TrackOutcome::Failed(TrackError::Tagging),
    )
    &&& old.stage == Stage::Finished ==> a == TrackAction::Finish(
        TrackOutcome::Failed(TrackError::OutOfOrder),
    )
    &&& a is Finish ==> new.stage == Stage::Finished
}

/// The step to tagging: the tag plan of the job's codec and metadata, or the
/// end of the job when the codec has no tag family.
pub open spec fn tags_next(src: TrackJob, new: TrackJob, a: TrackAction) -> bool {
    match crate::metadata::family_of(src.codec@) {
        Some(f) => {
            &&& new.stage == Stage::Tagging
            &&& a is WriteTags
            &&& a->WriteTags_stem@ == src.stem@
            &&& a->WriteTags_ext@ == src.ext@
            &&& a->WriteTags_plan.family == f
            &&& crate::tags::fields_view(a->WriteTags_plan.fields@)
                == crate::tags::family_fields(f, src.meta)
        },
        None => a == TrackAction::Finish(TrackOutcome::Done),
    }
}

/// Running the same track twice writes nothing the second time: two jobs
/// with the same template and metadata resolve the same descriptor to the
/// same destination; when the existence check then finds a file there the
/// job ends at once without a write, and a finished job never writes again.
pub proof fn lemma_rerun_writes_nothing(
    first: TrackJob,
    second: TrackJob,
    ev: TrackEvent,
    first_next: TrackJob,
    first_action: TrackAction,
    second_next: TrackJob,
    second_action: TrackAction,
)
    requires
        first.stage == Stage::Resolving,
        second.stage == Stage::Resolving,
        first.track_template@ == second.track_template@,
        first.meta == second.meta,
        ev is Descriptor,
        specs_of(ev->Descriptor_codec@, ev->Descriptor_bitrate) is Some,
        step_spec(first, ev, first_next, first_action),
        step_spec(second, ev, second_next, second_action),
    ensures
        first_action is CheckExists,
        second_action is CheckExists,
        first_action->CheckExists_stem@ == second_action->CheckExists_stem@,
        first_action->CheckExists_ext@ == second_action->CheckExists_ext@,
        forall|after: TrackJob, a: TrackAction|
            step_spec(second_next, TrackEvent::Exists(true), after, a) ==> a
                == TrackAction::Finish(TrackOutcome::AlreadyPresent) && !writes(a)
                && after.stage == Stage::Finished,
        forall|done: TrackJob, e: TrackEvent, after: TrackJob, a: TrackAction|
            done.stage == Stage::Finished && step_spec(done, e, after, a) ==> !writes(a)
                && after.stage == Stage::Finished,
{
}

impl TrackJob {
    /// A job for one track with its metadata, ready to start.
    pub fn new(meta: ParsedAlbumMeta, track_template: String, write_lyrics: bool) -> (r: TrackJob)
        ensures
            r.stage == Stage::Start,
            r.meta == meta,
            r.track_template == track_template,
            r.write_lyrics == write_lyrics,
    {
        TrackJob {
            meta,
            track_template,
            write_lyrics,
            stage: Stage::Start,
            codec: String::new(),
            label: String::new(),
            ext: String::new(),
            url: String::new(),
            key: String::new(),
            stem: String::new(),
            fallback: String::new(),
        }
    }

    fn finish(&mut self, o: TrackOutcome) -> (a: TrackAction)
        ensures
            final(self).stage == Stage::Finished,
            a == TrackAction::Finish(o),
            final(self).meta == old(self).meta,
            final(self).url == old(self).url,
            final(self).key == old(self).key,
            final(self).codec == old(self).codec,
            final(self).stem == old(self).stem,
            final(self).ext == old(self).ext,
            final(self).track_template == old(self).track_template,
            final(self).write_lyrics == old(self).write_lyrics,
    {
        self.stage = Stage::Finished;
        TrackAction::Finish(o)
    }

    fn to_tags(&mut self) -> (a: TrackAction)
        ensures
            tags_next(*old(self), *final(self), a),
            a is Finish ==> final(self).stage == Stage::Finished,
            final(self).meta == old(self).meta,
            final(self).url == old(self).url,
            final(self).key == old(self).key,
            final(self).codec == old(self).codec,
            final(self).stem == old(self).stem,
            final(self).ext == old(self).ext,
            final(self).track_template == old(self).track_template,
            final(self).write_lyrics == old(self).write_lyrics,
    {
        match tag_plan(self.codec.as_str(), &self.meta) {
            Some(plan) => {
                self.stage = Stage::Tagging;
                TrackAction::WriteTags { stem: self.stem.clone(), ext: self.ext.clone(), plan }
            },
            None => self.finish(TrackOutcome::Done),
        }
    }

    /// Advances the job on an event and says what to do next.
    pub fn step(&mut self, ev: TrackEvent) -> (a: TrackAction)
        ensures
            step_spec(*old(self), ev, *final(self), a),
    {
        match self.stage {
            Stage::Start => match ev {
                TrackEvent::Start => {
                    self.stage = Stage::Resolving;
                    TrackAction::FetchDescriptor
                },
                _ => self.finish(TrackOutcome::Failed(TrackError::OutOfOrder)),
            },
            Stage::Resolving => match ev {
                TrackEvent::Descriptor { codec, bitrate, url, key } => {
                    match parse_specs(codec.as_str(), bitrate) {
                        None => self.finish(TrackOutcome::Failed(TrackError::UnknownCodec)),
                        Some((label, ext)) => {
                            let padding = format_track_number(
                                self.meta.track_num,
                                self.meta.track_total,
                            );
                            let stem = parse_track_template(
                                self.track_template.as_str(),
                                &self.meta,
                                padding.as_str(),
                            );
                            self.codec = codec;
                            self.label = label;
                            self.ext = ext;
                            self.url = url;
                            self.key = key;
                            self.stem = stem.clone();
                            self.fallback = padding;
                            self.stage = Stage::Checking;
                            TrackAction::CheckExists { stem, ext: self.ext.clone() }
                        },
                    }
                },
                TrackEvent::Failed => self.finish(TrackOutcome::Failed(TrackError::Descriptor)),
                _ => self.finish(TrackOutcome::Failed(TrackError::OutOfOrder)),
            },
            Stage::Checking | Stage::CheckingFallback => match ev {
                TrackEvent::Exists(true) => self.finish(TrackOutcome::AlreadyPresent),
                TrackEvent::Exists(false) => {
                    self.stage = Stage::Downloading;
                    TrackAction::Download { url: self.url.clone() }
                },
                TrackEvent::PathTooLong => {
                    if self.stage == Stage::Checking {
                        self.stem = self.fallback.clone();
                        self.stage = Stage::CheckingFallback;
                        TrackAction::CheckExists { stem: self.stem.clone(), ext: self.ext.clone() }
                    } else {
                        self.finish(TrackOutcome::Failed(TrackError::Filesystem))
                    }
                },
                TrackEvent::Failed => self.finish(TrackOutcome::Failed(TrackError::Filesystem)),
                _ => self.finish(TrackOutcome::Failed(TrackError::OutOfOrder)),
            },
            Stage::Downloading => match ev {
                TrackEvent::Downloaded(bytes) => {
                    let mut buf = bytes;
                    match decrypt_buff(&mut buf, self.key.as_str()) {
                        Ok(()) => {
                            self.stage = Stage::Writing;
                            TrackAction::WriteAudio {
                                stem: self.stem.clone(),
                                ext: self.ext.clone(),
                                bytes: buf,
                            }
                        },
                        Err(e) => self.finish(TrackOutcome::Failed(TrackError::Decryption(e))),
                    }
                },
                TrackEvent::Failed => self.finish(TrackOutcome::Failed(TrackError::Download)),
                _ => self.finish(TrackOutcome::Failed(TrackError::OutOfOrder)),
            },
            Stage::Writing => match ev {
                TrackEvent::Done => {
                    self.stage = Stage::Remuxing;
                    TrackAction::Remux { stem: self.stem.clone(), ext: self.ext.clone() }
                },
                TrackEvent::Failed => self.finish(TrackOutcome::Failed(TrackError::Filesystem)),
                _ => self.finish(TrackOutcome::Failed(TrackError::OutOfOrder)),
            },
            Stage::Remuxing => match ev {
                TrackEvent::Done => match self.meta.lyrics_avail {
                    Some(timed) => {
                        self.stage = Stage::FetchingLyrics;
                        TrackAction::FetchLyrics { timed }
                    },
                    None => self.to_tags(),
                },
                TrackEvent::Failed => self.finish(TrackOutcome::Failed(TrackError::Remux)),
                _ => self.finish(TrackOutcome::Failed(TrackError::OutOfOrder)),
            },
            Stage::FetchingLyrics => match ev {
                TrackEvent::LyricsFetched(text) => {
                    let timed = self.meta.lyrics_avail == Some(true);
                    if timed {
                        self.meta.timed_lyrics = Some(text.clone());
                    } else {
                        self.meta.untimed_lyrics = Some(text.clone());
                    }
                    if timed && self.write_lyrics {
                        self.stage = Stage::WritingLyrics;
                        TrackAction::WriteLyrics { stem: self.stem.clone(), text }
                    } else {
                        self.to_tags()
                    }
                },
                _ => self.to_tags(),
            },
            Stage::WritingLyrics => self.to_tags(),
            Stage::Tagging => match ev {
                TrackEvent::Done => self.finish(TrackOutcome::Done),
                _ => self.finish(TrackOutcome::Failed(TrackError::Tagging)),
            },
            Stage::Finished => self.finish(TrackOutcome::Failed(TrackError::OutOfOrder)),
        }
    }
}

} // verus!
