//! Offline transcription: which model files are complete, where a model is
//! fetched from, how download progress is reported, and how the recognised
//! segments become one text.

use vstd::prelude::*;
use vstd::string::StringExecFns;
use crate::text::{
    is_white_space, lemma_trimmed_clean, lemma_trimmed_ends, lemma_trimmed_space, same_text, trim,
    trimmed,
};

verus! {

/// A model file shorter than this (in bytes) counts as missing or incomplete.
pub const MIN_MODEL_BYTES: u64 = 1_000_000;

/// True when a model file of length `file_len` is present and complete;
/// `file_len` is `None` when the file is absent or its length cannot be read.
pub fn is_model_downloaded(file_len: Option<u64>) -> (done: bool)
    ensures
        done == (file_len matches Some(n) && n > MIN_MODEL_BYTES),
{
    match file_len {
        Some(n) => n > MIN_MODEL_BYTES,
        None => false,
    }
}

/// A downloadable model: its file name, a label for people, and its address.
pub struct ModelEntry {
    pub file: &'static str,
    pub label: &'static str,
    pub url: &'static str,
}

/// The downloadable models, as (file, label, address).
pub open spec fn model_table() -> Seq<(Seq<char>, Seq<char>, Seq<char>)> {
    seq![
        (
            "ggml-small-q8_0.bin"@,
            "Small Q8 (~180MB)"@,
            "https://huggingface.co/ggerganov/whisper.cpp/resolve/main/ggml-small-q8_0.bin"@,
        ),
        (
            "ggml-large-v3-turbo-q8_0.bin"@,
            "Large v3 Turbo Q8 (~810MB)"@,
            "https://huggingface.co/ggerganov/whisper.cpp/resolve/main/ggml-large-v3-turbo-q8_0.bin"@,
        ),
    ]
}

/// The downloadable models.
pub fn models() -> (m: Vec<ModelEntry>)
    ensures
        m@.len() == model_table().len(),
        forall|i: int|
            0 <= i < m@.len() ==> (#[trigger] m@[i].file@, m@[i].label@, m@[i].url@)
                == model_table()[i],
{
    let mut m: Vec<ModelEntry> = Vec::new();
    m.push(
        ModelEntry {
            file: "ggml-small-q8_0.bin",
            label: "Small Q8 (~180MB)",
            url: "https://huggingface.co/ggerganov/whisper.cpp/resolve/main/ggml-small-q8_0.bin",
        },
    );
    m.push(
        ModelEntry {
            file: "ggml-large-v3-turbo-q8_0.bin",
            label: "Large v3 Turbo Q8 (~810MB)",
            url: "https://huggingface.co/ggerganov/whisper.cpp/resolve/main/ggml-large-v3-turbo-q8_0.bin",
        },
    );
    m
}

/// The address of the first model in `table` whose file is `name`.
pub open spec fn url_in(table: Seq<(Seq<char>, Seq<char>, Seq<char>)>, name: Seq<char>) -> Option<
    Seq<char>,
>
    decreases table.len(),
{
    if table.len() == 0 {
        None
    } else if table[0].0 == name {
        Some(table[0].2)
    } else {
        url_in(table.drop_first(), name)
    }
}

/// The address a model file is downloaded from; `None` for an unknown model.
pub open spec fn model_url(name: Seq<char>) -> Option<Seq<char>> {
    url_in(model_table(), name)
}

/// Looks up where a model file is downloaded from.
pub fn model_download_url(name: &str) -> (url: Option<&'static str>)
    ensures
        url matches Some(u) ==> model_url(name@) == Some(u@),
        url is None ==> model_url(name@) is None,
{
    let table = models();
    assert(model_table().skip(0) =~= model_table());
    let mut i: usize = 0;
    while i < table.len()
        invariant
            table@.len() == model_table().len(),
            forall|k: int|
                0 <= k < table@.len() ==> (#[trigger] table@[k].file@, table@[k].label@, table@[k].url@)
                    == model_table()[k],
            i <= table@.len(),
            model_url(name@) == url_in(model_table().skip(i as int), name@),
        decreases table@.len() - i,
    {
        let e = &table[i];
        let ghost rest = model_table().skip(i as int);
        assert(rest[0] == model_table()[i as int]);
        assert(rest.drop_first() =~= model_table().skip(i + 1));
        if same_text(name, e.file) {
            return Some(e.url);
        }
        i = i + 1;
    }
    assert(model_table().skip(i as int).len() == 0);
    None
}

/// Where a model comes from when it is needed.
#[derive(Debug, PartialEq, Eq)]
pub enum ModelSource {
    /// The complete file is already on disk.
    Cached,
    /// It must be downloaded from this address.
    Download(&'static str),
    /// No such model is known; the error message.
    Unknown(String),
}

/// Decides whether `name` is used from disk, downloaded, or refused; only the
/// named model is ever fetched. `file_len` is the length of its file on disk.
pub fn model_source(name: &str, file_len: Option<u64>) -> (src: ModelSource)
    ensures
        (file_len matches Some(n) && n > MIN_MODEL_BYTES) ==> src is Cached,
        !(file_len matches Some(n) && n > MIN_MODEL_BYTES) ==> match model_url(name@) {
            Some(u) => src matches ModelSource::Download(v) && v@ == u,
            None => src matches ModelSource::Unknown(e) && e@ == "Unknown model: "@ + name@,
        },
{
    if is_model_downloaded(file_len) {
        return ModelSource::Cached;
    }
    match model_download_url(name) {
        Some(u) => ModelSource::Download(u),
        None => {
            let mut e = "Unknown model: ".to_owned();
            e.append(name);
            ModelSource::Unknown(e)
        },
    }
}

/// Whole percent of `total` that `done` bytes are; zero when the total is unknown (0).
pub open spec fn percent(done: u64, total: u64) -> int {
    if total > 0 {
        (done * 100) / (total as int)
    } else {
        0
    }
}

/// A progress message: percent done, and megabytes done and expected.
#[derive(Debug, Clone, Copy, PartialEq, Eq, Structural)]
pub struct ProgressReport {
    pub progress: u64,
    pub downloaded_mb: u64,
    pub total_mb: u64,
}

/// The progress of one model download; a report is due whenever the percentage
/// has moved on by more than one point since the last report.
pub struct DownloadProgress {
    downloaded: u64,
    total: u64,
    last_progress: u64,
}

impl DownloadProgress {
    /// Bytes received so far.
    pub closed spec fn spec_downloaded(self) -> u64 {
        self.downloaded
    }

    /// Expected size in bytes; 0 when unknown.
    pub closed spec fn spec_total(self) -> u64 {
        self.total
    }

    /// The percentage last reported.
    pub closed spec fn spec_last_progress(self) -> u64 {
        self.last_progress
    }

    /// A download of `total` bytes (0: unknown) that has not started.
    pub fn new(total: u64) -> (p: Self)
        ensures
            p.spec_downloaded() == 0,
            p.spec_total() == total,
            p.spec_last_progress() == 0,
    {
        DownloadProgress { downloaded: 0, total, last_progress: 0 }
    }

    /// Bytes received so far.
    pub fn downloaded(&self) -> (d: u64)
        ensures
            d == self.spec_downloaded(),
    {
        self.downloaded
    }

    /// Counts `n` more bytes and says whether a progress message is due.
    pub fn advance(&mut self, n: u64) -> (report: Option<ProgressReport>)
        requires
            old(self).spec_downloaded() + n <= u64::MAX,
            old(self).spec_total() > 0 ==> (old(self).spec_downloaded() + n) * 100 <= u64::MAX,
        ensures
            final(self).spec_downloaded() == old(self).spec_downloaded() + n,
            final(self).spec_total() == old(self).spec_total(),
            ({
                let p = percent(final(self).spec_downloaded(), final(self).spec_total());
                if p > old(self).spec_last_progress() + 1 {
                    &&& report == Some(
                        ProgressReport {
                            progress: p as u64,
                            downloaded_mb: final(self).spec_downloaded() / 1_000_000,
                            total_mb: final(self).spec_total() / 1_000_000,
                        },
                    )
                    &&& final(self).spec_last_progress() == p
                } else {
                    &&& report is None
                    &&& final(self).spec_last_progress() == old(self).spec_last_progress()
                }
            }),
    {
        self.downloaded = self.downloaded + n;
        let progress: u64 = if self.total > 0 {
            (self.downloaded * 100) / self.total
        } else {
            0
        };
        if progress > self.last_progress && progress - self.last_progress > 1 {
            self.last_progress = progress;
            Some(
                ProgressReport {
                    progress,
                    downloaded_mb: self.downloaded / 1_000_000,
                    total_mb: self.total / 1_000_000,
                },
            )
        } else {
            None
        }
    }
}

/// The text of recognised segments before the final trim: each readable
/// segment trimmed and followed by one space; unreadable ones (`None`) skipped.
pub open spec fn joined_segments(segments: Seq<Option<String>>) -> Seq<char>
    decreases segments.len(),
{
    if segments.len() == 0 {
        Seq::empty()
    } else {
        let prev = joined_segments(segments.drop_last());
        match segments.last() {
            Some(t) => prev + trimmed(t@) + " "@,
            None => prev,
        }
    }
}

/// The transcript made of recognised segments.
pub fn join_segments(segments: &Vec<Option<String>>) -> (text: String)
    ensures
        text@ == trimmed(joined_segments(segments@)),
{
    let mut text = String::new();
    let mut i: usize = 0;
    while i < segments.len()
        invariant
            i <= segments@.len(),
            text@ == joined_segments(segments@.take(i as int)),
        decreases segments@.len() - i,
    {
        assert(segments@.take(i + 1).drop_last() =~= segments@.take(i as int));
        match &segments[i] {
            Some(t) => {
                let piece = trim(t.as_str());
                text.append(piece.as_str());
                text.append(" ");
            },
            None => {},
        }
        i = i + 1;
    }
    assert(segments@.take(segments@.len() as int) =~= segments@);
    trim(text.as_str())
}

/// The trimmed texts of the readable segments, in order.
pub open spec fn readable_pieces(segments: Seq<Option<String>>) -> Seq<Seq<char>>
    decreases segments.len(),
{
    if segments.len() == 0 {
        Seq::empty()
    } else {
        let earlier = readable_pieces(segments.drop_last());
        match segments.last() {
            Some(t) => earlier.push(trimmed(t@)),
            None => earlier,
        }
    }
}

/// Texts separated by single spaces.
pub open spec fn spaced_out(pieces: Seq<Seq<char>>) -> Seq<char>
    decreases pieces.len(),
{
    if pieces.len() == 0 {
        Seq::empty()
    } else if pieces.len() == 1 {
        pieces[0]
    } else {
        spaced_out(pieces.drop_last()) + " "@ + pieces.last()
    }
}

/// A transcript of one segment is that segment, trimmed.
pub proof fn one_segment_transcript(t: String)
    ensures
        trimmed(joined_segments(seq![Some(t)])) == trimmed(t@),
{
    let segs = seq![Some(t)];
    assert(segs.drop_last() =~= Seq::<Option<String>>::empty());
    assert(joined_segments(Seq::<Option<String>>::empty()) == Seq::<char>::empty());
    assert(segs.last() == Some(t));
    assert(joined_segments(segs) =~= trimmed(t@) + " "@);
    lemma_trimmed_ends(t@);
    if trimmed(t@).len() > 0 {
        lemma_trimmed_clean(trimmed(t@));
    } else {
        assert(trimmed(t@) + " "@ =~= " "@);
        lemma_trimmed_space();
    }
}

/// A segment that cannot be read adds nothing to the transcript.
pub proof fn unreadable_segment_skipped(segments: Seq<Option<String>>)
    ensures
        joined_segments(segments.push(None)) == joined_segments(segments),
        readable_pieces(segments.push(None)) == readable_pieces(segments),
{
    assert(segments.push(None).drop_last() =~= segments);
}

proof fn lemma_joined_shape(segments: Seq<Option<String>>)
    requires
        forall|i: int|
            0 <= i < segments.len() ==> (#[trigger] segments[i] matches Some(t) ==> trimmed(t@).len()
                > 0),
    ensures
        readable_pieces(segments).len() == 0 ==> joined_segments(segments).len() == 0,
        readable_pieces(segments).len() > 0 ==> {
            let x = spaced_out(readable_pieces(segments));
            &&& joined_segments(segments) == x + " "@
            &&& x.len() > 0
            &&& !is_white_space(x[0])
            &&& !is_white_space(x.last())
        },
    decreases segments.len(),
{
    reveal_strlit(" ");
    if segments.len() > 0 {
        let init = segments.drop_last();
        assert forall|i: int| 0 <= i < init.len() implies (#[trigger] init[i] matches Some(t)
            ==> trimmed(t@).len() > 0) by {
            assert(init[i] == segments[i]);
        }
        lemma_joined_shape(init);
        assert(segments[segments.len() - 1] == segments.last());
        match segments.last() {
            Some(t) => {
                let p = trimmed(t@);
                lemma_trimmed_ends(t@);
                let pieces = readable_pieces(init).push(p);
                assert(pieces.drop_last() =~= readable_pieces(init));
                if readable_pieces(init).len() == 0 {
                    assert(pieces.len() == 1);
                    assert(joined_segments(segments) =~= p + " "@);
                } else {
                    let x = spaced_out(readable_pieces(init));
                    let y = x + " "@ + p;
                    assert(spaced_out(pieces) == y);
                    assert(joined_segments(segments) =~= y + " "@);
                    assert(y[0] == x[0]);
                    assert(y.last() == p.last());
                }
            },
            None => {},
        }
    }
}

/// When every readable segment has some text, the transcript is those
/// segments, each trimmed, in order, separated by single spaces: every
/// readable segment contributes, and none is dropped or repeated.
pub proof fn transcript_joins_segments(segments: Seq<Option<String>>)
    requires
        forall|i: int|
            0 <= i < segments.len() ==> (#[trigger] segments[i] matches Some(t) ==> trimmed(t@).len()
                > 0),
    ensures
        trimmed(joined_segments(segments)) == spaced_out(readable_pieces(segments)),
{
    lemma_joined_shape(segments);
    if readable_pieces(segments).len() == 0 {
        assert(joined_segments(segments) =~= Seq::<char>::empty());
        assert(spaced_out(readable_pieces(segments)) =~= Seq::<char>::empty());
    } else {
        lemma_trimmed_clean(spaced_out(readable_pieces(segments)));
    }
}

/// Adding a segment with some text to such a transcript appends it after one
/// space (or makes it the transcript, when there was no text before).
pub proof fn next_segment_appended(segments: Seq<Option<String>>, t: String)
    requires
        forall|i: int|
            0 <= i < segments.len() ==> (#[trigger] segments[i] matches Some(u) ==> trimmed(u@).len()
                > 0),
        trimmed(t@).len() > 0,
    ensures
        ({
            let before = trimmed(joined_segments(segments));
            let after = trimmed(joined_segments(segments.push(Some(t))));
            if before.len() == 0 {
                after == trimmed(t@)
            } else {
                after == before + " "@ + trimmed(t@)
            }
        }),
{
    let longer = segments.push(Some(t));
    assert forall|i: int| 0 <= i < longer.len() implies (#[trigger] longer[i] matches Some(u)
        ==> trimmed(u@).len() > 0) by {
        if i < segments.len() {
            assert(longer[i] == segments[i]);
        }
    }
    transcript_joins_segments(segments);
    transcript_joins_segments(longer);
    assert(longer.drop_last() =~= segments);
    let pieces = readable_pieces(segments).push(trimmed(t@));
    assert(pieces.drop_last() =~= readable_pieces(segments));
    if readable_pieces(segments).len() == 0 {
        assert(spaced_out(readable_pieces(segments)) =~= Seq::<char>::empty());
    } else {
        assert(spaced_out(readable_pieces(segments)).len() > 0) by {
            lemma_joined_shape(segments);
        }
    }
}

} // verus!
