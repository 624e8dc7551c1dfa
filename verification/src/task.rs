//! Per-pack task model: resolving a pack number to its remote address and
//! archive kind, the staged task descriptor, and the terminal failure record.

use vstd::prelude::*;
use vstd::string::StringExecFns;

use crate::decimal::{dec_rep, u16_dec_string};
use crate::errors::{FetchFailure, Stage, TaskFailure};

verus! {

/// The archive container format of one pack, selecting the decoder.
#[derive(Debug, Clone, Copy, PartialEq, Eq, Structural)]
pub enum Extractor {
    /// Container with per-entry random access; tolerates bad entries.
    Zip,
    /// Container requiring a full sequential decode; any structural error
    /// fails the whole archive.
    SevenZip,
}

/// Outside type: `url::Url`, a parsed remote address, carried opaquely.
#[verifier::external_type_specification]
#[verifier::external_body]
pub struct ExUrl(url::Url);

/// Outside type: `url::ParseError`, the URL parser's rejection reason.
#[verifier::external_type_specification]
#[verifier::external_body]
pub struct ExUrlParseError(url::ParseError);

/// Outside type: `tempfile::TempPath`, a staged download that is deleted
/// when dropped, carried opaquely.
#[verifier::external_type_specification]
#[verifier::external_body]
pub struct ExTempPath(tempfile::TempPath);

/// Outside type: `indicatif::ProgressBar`, the per-pack handle into the
/// progress sink, carried opaquely.
#[verifier::external_type_specification]
#[verifier::external_body]
pub struct ExProgressBar(indicatif::ProgressBar);

/// Whether `url::Url::parse` accepts this string; a function of the string
/// alone.
pub uninterp spec fn url_parses(s: Seq<char>) -> bool;

/// Relies on `url::Url::parse` (re-exported as `reqwest::Url`): parsing is
/// deterministic in the input string, so whether it succeeds is a function of
/// the string alone.
pub assume_specification[ url::Url::parse ](input: &str) -> (r: Result<url::Url, url::ParseError>)
    ensures
        r is Ok <==> url_parses(input@),
;

/// The handful of low-numbered packs that were republished under the newer
/// naming convention and container format.
pub open spec fn is_legacy_zip_pack(n: u16) -> bool {
    n == 5 || n == 124 || n == 267 || n == 415 || n == 479 || n == 884
}

/// The archive kind a pack number resolves to.
pub open spec fn archive_kind_of(n: u16) -> Extractor {
    if n >= 1300 || is_legacy_zip_pack(n) {
        Extractor::Zip
    } else {
        Extractor::SevenZip
    }
}

/// The remote address of pack `n`, without the file extension.
pub open spec fn url_body(n: u16) -> Seq<char> {
    if n >= 1318 || is_legacy_zip_pack(n) {
        "https://packs.ppy.sh/S"@ + dec_rep(n as nat) + "%20-%20osu%21%20Beatmap%20Pack%20%23"@
            + dec_rep(n as nat)
    } else {
        "https://packs.ppy.sh/S"@ + dec_rep(n as nat) + "%20-%20Beatmap%20Pack%20%23"@ + dec_rep(
            n as nat,
        )
    }
}

/// The file extension of pack `n`'s remote address.
pub open spec fn url_ext(n: u16) -> Seq<char> {
    if archive_kind_of(n) == Extractor::Zip {
        ".zip"@
    } else {
        ".7z"@
    }
}

/// The full remote address of pack `n`. Resolution is total: every pack
/// number maps to exactly one address and one archive kind. This table is a
/// compatibility contract with the remote source.
pub open spec fn pack_url(n: u16) -> Seq<char> {
    url_body(n) + url_ext(n)
}

/// Renders the remote address of pack `n`.
pub fn pack_url_string(n: u16) -> (s: String)
    ensures
        s@ == pack_url(n),
{
    let mut s = String::from_str("https://packs.ppy.sh/S");
    let digits = u16_dec_string(n);
    s.append(digits.as_str());
    if n >= 1318 || n == 5 || n == 124 || n == 267 || n == 415 || n == 479 || n == 884 {
        s.append("%20-%20osu%21%20Beatmap%20Pack%20%23");
    } else {
        s.append("%20-%20Beatmap%20Pack%20%23");
    }
    s.append(digits.as_str());
    if n >= 1300 || n == 5 || n == 124 || n == 267 || n == 415 || n == 479 || n == 884 {
        s.append(".zip");
    } else {
        s.append(".7z");
    }
    proof {
        assert(s@ =~= pack_url(n));
    }
    s
}

/// The decoder a pack number selects.
pub fn extractor_for_pack(n: u16) -> (e: Extractor)
    ensures
        e == archive_kind_of(n),
{
    if n >= 1300 || n == 5 || n == 124 || n == 267 || n == 415 || n == 479 || n == 884 {
        Extractor::Zip
    } else {
        Extractor::SevenZip
    }
}

/// `suffix` is the tail of `s`.
pub open spec fn ends_with(s: Seq<char>, suffix: Seq<char>) -> bool {
    suffix.len() <= s.len() && s.subrange(s.len() - suffix.len(), s.len() as int) == suffix
}

/// Law: a pack's remote address ends in ".zip" exactly when its archive kind
/// selects the zip decoder, and in ".7z" exactly when it selects the
/// sequential decoder.
pub proof fn lemma_url_extension_matches_kind(n: u16)
    ensures
        archive_kind_of(n) == Extractor::Zip <==> ends_with(pack_url(n), ".zip"@),
        archive_kind_of(n) == Extractor::SevenZip <==> ends_with(pack_url(n), ".7z"@),
{
    reveal_strlit(".zip");
    reveal_strlit(".7z");
    let body = url_body(n);
    let ext = url_ext(n);
    let full = pack_url(n);
    assert(full.len() == body.len() + ext.len());
    assert(full.subrange(body.len() as int, full.len() as int) =~= ext);
    if archive_kind_of(n) == Extractor::Zip {
        assert(ends_with(full, ".zip"@));
        assert(!ends_with(full, ".7z"@)) by {
            if ends_with(full, ".7z"@) {
                let tail = full.subrange(full.len() - 3, full.len() as int);
                assert(tail[2] == full[full.len() - 1]);
                assert(full[full.len() - 1] == ext[3]);
                assert(ext[3] == 'p');
                assert(tail[2] == 'z');
            }
        }
    } else {
        assert(ends_with(full, ".7z"@));
        assert(!ends_with(full, ".zip"@)) by {
            if ends_with(full, ".zip"@) {
                let tail = full.subrange(full.len() - 4, full.len() as int);
                assert(tail[3] == full[full.len() - 1]);
                assert(full[full.len() - 1] == ext[2]);
                assert(ext[2] == 'z');
                assert(tail[3] == 'p');
            }
        }
    }
}

/// Resolves a pack number to its parsed remote address. Resolution itself is
/// total; the only failure is the URL parser rejecting the rendered address.
pub fn form_url(pack_num: u16) -> (r: Result<url::Url, FetchFailure>)
    ensures
        r is Ok <==> url_parses(pack_url(pack_num)),
        r matches Err(e) ==> e == FetchFailure::InvalidUrl,
{
    let s = pack_url_string(pack_num);
    match url::Url::parse(s.as_str()) {
        Ok(u) => Ok(u),
        Err(_) => Err(FetchFailure::InvalidUrl),
    }
}

/// Per-task state transitions pushed to the progress sink.
#[derive(Debug, Clone, Copy, PartialEq, Eq, Structural)]
pub enum TaskStatus {
    Queued,
    Downloading,
    Extracting,
    Finished,
    Failed(Stage),
}

/// The label the progress sink shows for each state.
pub open spec fn status_label_spec(s: TaskStatus) -> Seq<char> {
    match s {
        TaskStatus::Queued => "Queued..."@,
        TaskStatus::Downloading => "Downloading..."@,
        TaskStatus::Extracting => "Extracting..."@,
        TaskStatus::Finished => "Extracting...Finished"@,
        TaskStatus::Failed(Stage::Fetch) => "Downloading...Failed"@,
        TaskStatus::Failed(Stage::Extract) => "Extracting...Failed"@,
    }
}

impl TaskStatus {
    /// The status line pushed to the progress sink for this state.
    pub fn label(&self) -> (r: &'static str)
        ensures
            r@ == status_label_spec(*self),
    {
        match self {
            TaskStatus::Queued => "Queued...",
            TaskStatus::Downloading => "Downloading...",
            TaskStatus::Extracting => "Extracting...",
            TaskStatus::Finished => "Extracting...Finished",
            TaskStatus::Failed(Stage::Fetch) => "Downloading...Failed",
            TaskStatus::Failed(Stage::Extract) => "Extracting...Failed",
        }
    }
}

/// Terminal failure record for one pack: its number and the structured cause.
/// Immutable once created; consumed once by the end-of-run report.
#[derive(Debug)]
pub struct PackerTaskFail {
    pack_num: u16,
    error: TaskFailure,
}

impl PackerTaskFail {
    pub closed spec fn spec_pack_num(&self) -> u16 {
        self.pack_num
    }

    pub closed spec fn spec_error(&self) -> TaskFailure {
        self.error
    }

    pub fn new(pack_num: u16, error: TaskFailure) -> (r: Self)
        ensures
            r.spec_pack_num() == pack_num,
            r.spec_error() == error,
    {
        PackerTaskFail { pack_num, error }
    }

    pub fn pack_num(&self) -> (r: &u16)
        ensures
            *r == self.spec_pack_num(),
    {
        &self.pack_num
    }

    pub fn error(&self) -> (r: &TaskFailure)
        ensures
            *r == self.spec_error(),
    {
        &self.error
    }
}

/// One unit of pending extraction work: the staged download, the decoder it
/// selects, and its progress-sink handle. Processed by exactly one
/// extraction attempt; never re-queued.
pub struct PackerTask {
    archive_path: tempfile::TempPath,
    extractor: Extractor,
    pack_num: u16,
    task_progress: indicatif::ProgressBar,
}

impl PackerTask {
    pub closed spec fn spec_pack_num(&self) -> u16 {
        self.pack_num
    }

    pub closed spec fn spec_extractor(&self) -> Extractor {
        self.extractor
    }

    pub closed spec fn spec_archive_path(&self) -> tempfile::TempPath {
        self.archive_path
    }

    pub closed spec fn spec_progress(&self) -> indicatif::ProgressBar {
        self.task_progress
    }

    /// Builds the descriptor for a pack whose archive has been fetched and
    /// staged at `archive_path`. The decoder is fixed here, by the pack
    /// number, and never changes afterwards.
    pub fn new(
        pack_num: u16,
        archive_path: tempfile::TempPath,
        task_progress: indicatif::ProgressBar,
    ) -> (t: Self)
        ensures
            t.spec_pack_num() == pack_num,
            t.spec_extractor() == archive_kind_of(pack_num),
    {
        let extractor = extractor_for_pack(pack_num);
        PackerTask { archive_path, extractor, pack_num, task_progress }
    }

    pub fn pack_num(&self) -> (r: &u16)
        ensures
            *r == self.spec_pack_num(),
    {
        &self.pack_num
    }

    /// The decoder selected by the pack's archive kind.
    pub fn extractor(&self) -> (r: &Extractor)
        ensures
            *r == self.spec_extractor(),
    {
        &self.extractor
    }

    /// The staged archive this descriptor owns.
    pub fn archive_path(&self) -> (r: &tempfile::TempPath)
        ensures
            *r == self.spec_archive_path(),
    {
        &self.archive_path
    }

    /// The handle into the external progress sink.
    pub fn progress_bar(&self) -> (r: &indicatif::ProgressBar)
        ensures
            *r == self.spec_progress(),
    {
        &self.task_progress
    }
}

} // verus!
