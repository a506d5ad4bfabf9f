//! Processing one Pixiv work: the deletion-marker check, the detail and
//! page requests, the rule decision, persistence and the download queue.
//! Each Pixiv or storage call is made by the caller; the decisions between
//! them are the step function of this module.

use vstd::prelude::*;
use crate::domain::{DbError, JobErrorClass, PixivErrorClass};
use crate::jobs::{database_error_class, pixiv_error_class, spec_database_error_class, spec_pixiv_error_class};
use crate::text::{push_char, str_eq};

verus! {

/// Whether an existing deletion marker stops the work, or is removed when
/// the work is saved again (a re-import).
#[derive(Clone, Copy, Debug, PartialEq, Eq, Structural)]
pub enum DeletionMarkerPolicy {
    Block,
    RemoveOnSave,
}

/// What a rule decided for a work.
#[derive(Clone, Copy, Debug, PartialEq, Eq, Structural)]
pub enum RuleAction {
    Download,
    SaveMetadata,
    Ignore,
}

/// The state recorded for a work that Pixiv no longer serves.
#[derive(Clone, Copy, Debug, PartialEq, Eq, Structural)]
pub enum WorkSourceState {
    Missing,
    Restricted,
}

/// The image format Pixiv announces for a page.
#[derive(Clone, Copy, Debug, PartialEq, Eq, Structural)]
pub enum PixivImageFormat {
    Jpeg,
    Png,
    Gif,
}

/// How processing a work ended.
#[derive(Clone, Copy, Debug, PartialEq, Eq, Structural)]
pub enum ProcessedPixivWork {
    BlockedByDeletionMarker,
    Ignored,
    MetadataSaved { work_id: u128 },
    DownloadQueued { work_id: u128, job_id: u128 },
}

/// Why processing a work failed.
#[derive(Clone, Debug, PartialEq, Eq)]
pub enum PixivWorkProcessingError {
    Storage(DbError),
    Pixiv(JobErrorClass),
    Rule,
}

pub open spec fn spec_processing_error_class(error: PixivWorkProcessingError) -> JobErrorClass {
    match error {
        PixivWorkProcessingError::Pixiv(class) => class,
        PixivWorkProcessingError::Storage(db) => spec_database_error_class(db),
        PixivWorkProcessingError::Rule => JobErrorClass::Permanent,
    }
}

impl PixivWorkProcessingError {
    /// The job error class: a Pixiv failure keeps its class, a storage
    /// failure is classified as storage failures are, a rule failure is
    /// permanent.
    pub fn error_class(&self) -> (class: JobErrorClass)
        ensures
            class == spec_processing_error_class(*self),
    {
        match self {
            PixivWorkProcessingError::Pixiv(class) => *class,
            PixivWorkProcessingError::Storage(db) => database_error_class(db),
            PixivWorkProcessingError::Rule => JobErrorClass::Permanent,
        }
    }

    pub fn is_permanent_pixiv(&self) -> (b: bool)
        ensures
            b == (*self == PixivWorkProcessingError::Pixiv(JobErrorClass::Permanent)),
    {
        match self {
            PixivWorkProcessingError::Pixiv(JobErrorClass::Permanent) => true,
            _ => false,
        }
    }
}

/// The failure of a Pixiv request, as a processing error.
pub fn pixiv_failure(class: PixivErrorClass) -> (e: PixivWorkProcessingError)
    ensures
        e == PixivWorkProcessingError::Pixiv(spec_pixiv_error_class(class)),
{
    PixivWorkProcessingError::Pixiv(pixiv_error_class(class))
}

/// What the detail request told about a work.
#[derive(Clone, Copy, Debug, PartialEq, Eq, Structural)]
pub struct WorkDetailShape {
    pub work_id: i64,
    pub page_count: u32,
    pub ugoira: bool,
}

/// What the pages request told about a work: its id and the index of each
/// page in the order returned.
#[derive(Clone, Debug, PartialEq, Eq)]
pub struct WorkPagesShape {
    pub work_id: i64,
    pub page_indices: Vec<u32>,
}

/// The pages belong to the work, there are as many as the detail counts,
/// and each carries its own position as index.
pub open spec fn spec_pages_match(detail: WorkDetailShape, work_id: i64, indices: Seq<u32>) -> bool {
    &&& work_id == detail.work_id
    &&& indices.len() == detail.page_count
    &&& forall|i: int| 0 <= i < indices.len() ==> indices[i] == i
}

/// Whether the page list agrees with the work detail.
pub fn pages_match(detail: &WorkDetailShape, pages: &WorkPagesShape) -> (b: bool)
    ensures
        b == spec_pages_match(*detail, pages.work_id, pages.page_indices@),
{
    if pages.work_id != detail.work_id || pages.page_indices.len() as u64 != detail.page_count as u64 {
        return false;
    }
    let n = pages.page_indices.len();
    let mut i: usize = 0;
    while i < n
        invariant
            n == pages.page_indices@.len(),
            i <= n,
            forall|k: int| 0 <= k < i ==> pages.page_indices@[k] == k,
        decreases n - i,
    {
        if pages.page_indices[i] as u64 != i as u64 {
            return false;
        }
        i = i + 1;
    }
    true
}

/// Work data that cannot be stored.
#[derive(Clone, Copy, Debug, PartialEq, Eq, Structural)]
pub enum WorkDataProblem {
    NoPages,
    PagesMismatch,
}

pub open spec fn work_data_message(problem: WorkDataProblem) -> Seq<char> {
    match problem {
        WorkDataProblem::NoPages => "Pixiv work has no pages"@,
        WorkDataProblem::PagesMismatch => "Pixiv work page metadata does not match the work detail"@,
    }
}

/// Rejected work data is reported as an invalid stored value.
pub fn work_data_error(problem: WorkDataProblem) -> (e: PixivWorkProcessingError)
    ensures
        e matches PixivWorkProcessingError::Storage(DbError::InvalidValue(m)) && m@ == work_data_message(problem),
{
    match problem {
        WorkDataProblem::NoPages => PixivWorkProcessingError::Storage(DbError::InvalidValue(String::from_str("Pixiv work has no pages"))),
        WorkDataProblem::PagesMismatch => PixivWorkProcessingError::Storage(
            DbError::InvalidValue(String::from_str("Pixiv work page metadata does not match the work detail")),
        ),
    }
}

/// Checks the page list against the detail.
pub fn validate_pages(detail: &WorkDetailShape, pages: &WorkPagesShape) -> (r: Result<(), PixivWorkProcessingError>)
    ensures
        r is Ok <==> spec_pages_match(*detail, pages.work_id, pages.page_indices@),
        r matches Err(e) ==> (e matches PixivWorkProcessingError::Storage(DbError::InvalidValue(m))
            && m@ == work_data_message(WorkDataProblem::PagesMismatch)),
{
    if pages_match(detail, pages) {
        Ok(())
    } else {
        Err(work_data_error(WorkDataProblem::PagesMismatch))
    }
}

pub open spec fn spec_source_state_for(class: PixivErrorClass) -> Option<WorkSourceState> {
    match class {
        PixivErrorClass::HiddenOrNotFound => Some(WorkSourceState::Missing),
        PixivErrorClass::AgeRestrictedDisabled => Some(WorkSourceState::Restricted),
        _ => None,
    }
}

/// The state to record for a work whose detail request failed: hidden or
/// deleted works become missing, age-restricted ones restricted.
pub fn source_state_for(class: PixivErrorClass) -> (s: Option<WorkSourceState>)
    ensures
        s == spec_source_state_for(class),
{
    match class {
        PixivErrorClass::HiddenOrNotFound => Some(WorkSourceState::Missing),
        PixivErrorClass::AgeRestrictedDisabled => Some(WorkSourceState::Restricted),
        _ => None,
    }
}

pub open spec fn image_extension_name(format: PixivImageFormat) -> Seq<char> {
    match format {
        PixivImageFormat::Jpeg => "jpg"@,
        PixivImageFormat::Png => "png"@,
        PixivImageFormat::Gif => "gif"@,
    }
}

/// The file extension of an announced image format.
pub fn image_extension(format: PixivImageFormat) -> (e: &'static str)
    ensures
        e@ == image_extension_name(format),
{
    match format {
        PixivImageFormat::Jpeg => "jpg",
        PixivImageFormat::Png => "png",
        PixivImageFormat::Gif => "gif",
    }
}

/// ASCII upper-case letters map to lower case; every other character is kept.
pub open spec fn ascii_lower(c: char) -> char {
    if 'A' <= c && c <= 'Z' {
        ((c as u32) + 32) as char
    } else {
        c
    }
}

pub open spec fn spec_ascii_lowercase(s: Seq<char>) -> Seq<char> {
    s.map_values(|c: char| ascii_lower(c))
}

pub open spec fn spec_normalize_image_extension(extension: Seq<char>) -> Seq<char> {
    if spec_ascii_lowercase(extension) == "jpeg"@ {
        "jpg"@
    } else {
        spec_ascii_lowercase(extension)
    }
}

pub fn lower_ascii_char(c: char) -> (l: char)
    ensures
        l == ascii_lower(c),
{
    if 'A' <= c && c <= 'Z' {
        let code: u32 = (c as u32) + 32;
        assert(code <= 0x7a);
        (code as u8) as char
    } else {
        c
    }
}

/// The extension in ASCII lower case, with `jpeg` spelled `jpg`.
pub fn normalize_image_extension(extension: &str) -> (n: String)
    ensures
        n@ == spec_normalize_image_extension(extension@),
{
    let n = extension.unicode_len();
    let mut lowered = String::new();
    let mut i: usize = 0;
    while i < n
        invariant
            n == extension@.len(),
            i <= n,
            lowered@ == spec_ascii_lowercase(extension@.take(i as int)),
        decreases n - i,
    {
        let c = extension.get_char(i);
        push_char(&mut lowered, lower_ascii_char(c));
        i = i + 1;
        assert(lowered@ =~= spec_ascii_lowercase(extension@.take(i as int)));
    }
    assert(extension@.take(n as int) =~= extension@);
    if str_eq(lowered.as_str(), "jpeg") {
        String::from_str("jpg")
    } else {
        lowered
    }
}

/// The position of the last `.` in a name, if any.
pub open spec fn spec_last_dot(s: Seq<char>) -> int
    decreases s.len(),
{
    if s.len() == 0 {
        -1
    } else if s.last() == '.' {
        s.len() - 1
    } else {
        spec_last_dot(s.drop_last())
    }
}

/// The last dot is a dot, and none follows it.
proof fn lemma_last_dot_bounds(s: Seq<char>)
    ensures
        -1 <= spec_last_dot(s) < s.len(),
        spec_last_dot(s) >= 0 ==> s[spec_last_dot(s)] == '.',
        forall|k: int| spec_last_dot(s) < k < s.len() ==> s[k] != '.',
    decreases s.len(),
{
    if s.len() > 0 && s.last() != '.' {
        lemma_last_dot_bounds(s.drop_last());
        assert forall|k: int| spec_last_dot(s) < k < s.len() implies s[k] != '.' by {
            if k < s.len() - 1 {
                assert(s.drop_last()[k] == s[k]);
            }
        }
    }
}

/// What follows the last `.` of a file name, if it has one.
pub open spec fn spec_file_extension(name: Seq<char>) -> Option<Seq<char>> {
    if spec_last_dot(name) < 0 {
        None
    } else {
        Some(name.subrange(spec_last_dot(name) + 1, name.len() as int))
    }
}

/// The extension of a file name: the text after its last `.`.
pub fn file_extension(name: &str) -> (e: Option<String>)
    ensures
        e matches Some(x) ==> spec_file_extension(name@) == Some(x@),
        e is None <==> spec_file_extension(name@) is None,
{
    let chars = crate::text::chars_of(name);
    let n = chars.len();
    let mut i: usize = n;
    proof {
        lemma_last_dot_bounds(name@);
    }
    while i > 0
        invariant
            chars@ == name@,
            n == name@.len(),
            i <= n,
            spec_last_dot(name@) < i,
            -1 <= spec_last_dot(name@) < name@.len(),
            spec_last_dot(name@) >= 0 ==> name@[spec_last_dot(name@)] == '.',
            forall|k: int| spec_last_dot(name@) < k < name@.len() ==> name@[k] != '.',
        decreases i,
    {
        if chars[i - 1] == '.' {
            assert(spec_last_dot(name@) == i - 1);
            return Some(crate::text::string_from_range(&chars, i, n));
        }
        i = i - 1;
    }
    None
}

/// The stored extension of a page: the announced format's, or else the one
/// of the original file's name, in normalized form.
pub open spec fn spec_page_extension(format_hint: Option<PixivImageFormat>, file_name: Option<Seq<char>>) -> Option<Seq<char>> {
    match format_hint {
        Some(f) => Some(spec_normalize_image_extension(image_extension_name(f))),
        None => match file_name {
            Some(name) => match spec_file_extension(name) {
                Some(e) => Some(spec_normalize_image_extension(e)),
                None => None,
            },
            None => None,
        },
    }
}

pub open spec fn opt_text(o: Option<&str>) -> Option<Seq<char>> {
    match o {
        Some(t) => Some(t@),
        None => None,
    }
}

/// The stored extension of a page.
pub fn page_extension(format_hint: Option<PixivImageFormat>, file_name: Option<&str>) -> (e: Option<String>)
    ensures
        e matches Some(x) ==> spec_page_extension(format_hint, opt_text(file_name)) == Some(x@),
        e is None <==> spec_page_extension(format_hint, opt_text(file_name)) is None,
{
    match format_hint {
        Some(f) => Some(normalize_image_extension(image_extension(f))),
        None => match file_name {
            Some(name) => match file_extension(name) {
                Some(ext) => Some(normalize_image_extension(ext.as_str())),
                None => None,
            },
            None => None,
        },
    }
}

pub open spec fn orientation_name(width: u32, height: u32) -> Seq<char> {
    if width > height {
        "landscape"@
    } else if width < height {
        "portrait"@
    } else {
        "square"@
    }
}

/// Wider than high is landscape, higher than wide portrait, else square.
pub fn orientation(width: u32, height: u32) -> (o: &'static str)
    ensures
        o@ == orientation_name(width, height),
{
    if width > height {
        "landscape"
    } else if width < height {
        "portrait"
    } else {
        "square"
    }
}

/// What a processing request asks for.
#[derive(Clone, Copy, Debug, PartialEq, Eq, Structural)]
pub struct WorkRequestFlags {
    pub deletion_marker_policy: DeletionMarkerPolicy,
    /// Download whatever the rules say.
    pub forced: bool,
    /// A rule document decides the action.
    pub has_rule_document: bool,
    /// The request runs under a job lease, so every write is fenced by it.
    pub for_job: bool,
}

/// Where processing a work stands.
#[derive(Clone, Copy, Debug, PartialEq, Eq, Structural)]
pub enum WorkProcessingPhase {
    CheckingDeletionMarker,
    FetchingDetail,
    MarkingSourceState { error: JobErrorClass },
    Evaluating { detail: WorkDetailShape, pages_loaded: bool },
    FetchingPagesForRule { detail: WorkDetailShape },
    FetchingPages { detail: WorkDetailShape, action: RuleAction },
    FetchingUgoira { action: RuleAction },
    Saving { action: RuleAction },
    QueueingDownload { work_id: u128 },
    Finished,
}

/// What the last call reported.
#[derive(Clone, Debug, PartialEq, Eq)]
pub enum WorkProcessingEvent {
    DeletionMarker { exists: bool },
    DetailFetched(WorkDetailShape),
    DetailFailed(PixivErrorClass),
    SourceStateMarked,
    RuleDecided(RuleAction),
    PageMetadataRequired,
    PagesFetched(WorkPagesShape),
    UgoiraFetched,
    PixivFailed(PixivErrorClass),
    Saved { work_id: u128 },
    DownloadQueued { job_id: u128 },
    StorageFailed(DbError),
}

/// The next call to make, or how processing ended.
#[derive(Debug, PartialEq, Eq)]
pub enum WorkProcessingAction {
    CheckDeletionMarker,
    FetchDetail,
    MarkSourceState(WorkSourceState),
    /// Evaluate the rule document, with the page metadata applied to the
    /// candidate when `with_pages`.
    EvaluateRule { with_pages: bool },
    FetchPages,
    FetchUgoiraMeta,
    /// Save the metadata; a re-import also removes the deletion marker.
    SaveMetadata { for_job: bool, remove_deletion_marker: bool },
    QueueDownload { work_id: u128, for_job: bool },
    /// The work data cannot be stored; processing ends with
    /// `work_data_error` of the problem.
    RejectWorkData(WorkDataProblem),
    Complete(Result<ProcessedPixivWork, PixivWorkProcessingError>),
}

pub open spec fn spec_start_work(flags: WorkRequestFlags) -> (WorkProcessingPhase, WorkProcessingAction) {
    if flags.deletion_marker_policy == DeletionMarkerPolicy::Block {
        (WorkProcessingPhase::CheckingDeletionMarker, WorkProcessingAction::CheckDeletionMarker)
    } else {
        (WorkProcessingPhase::FetchingDetail, WorkProcessingAction::FetchDetail)
    }
}

/// The first call: the deletion marker when it blocks, else the detail.
pub fn start_work(flags: WorkRequestFlags) -> (r: (WorkProcessingPhase, WorkProcessingAction))
    ensures
        r == spec_start_work(flags),
{
    if flags.deletion_marker_policy == DeletionMarkerPolicy::Block {
        (WorkProcessingPhase::CheckingDeletionMarker, WorkProcessingAction::CheckDeletionMarker)
    } else {
        (WorkProcessingPhase::FetchingDetail, WorkProcessingAction::FetchDetail)
    }
}

pub open spec fn spec_save_action(flags: WorkRequestFlags) -> WorkProcessingAction {
    WorkProcessingAction::SaveMetadata {
        for_job: flags.for_job,
        remove_deletion_marker: flags.deletion_marker_policy == DeletionMarkerPolicy::RemoveOnSave,
    }
}

/// Once the pages are loaded and the action is known: the ugoira frames'
/// metadata for an ugoira, then the save.
pub open spec fn spec_after_pages(flags: WorkRequestFlags, detail: WorkDetailShape, action: RuleAction) -> (WorkProcessingPhase, WorkProcessingAction) {
    if detail.ugoira {
        (WorkProcessingPhase::FetchingUgoira { action }, WorkProcessingAction::FetchUgoiraMeta)
    } else {
        (WorkProcessingPhase::Saving { action }, spec_save_action(flags))
    }
}

pub open spec fn finish(result: Result<ProcessedPixivWork, PixivWorkProcessingError>) -> (WorkProcessingPhase, WorkProcessingAction) {
    (WorkProcessingPhase::Finished, WorkProcessingAction::Complete(result))
}

pub open spec fn spec_work_step(flags: WorkRequestFlags, phase: WorkProcessingPhase, event: WorkProcessingEvent) -> (WorkProcessingPhase, WorkProcessingAction) {
    match (phase, event) {
        (WorkProcessingPhase::CheckingDeletionMarker, WorkProcessingEvent::DeletionMarker { exists }) => if exists {
            finish(Ok(ProcessedPixivWork::BlockedByDeletionMarker))
        } else {
            (WorkProcessingPhase::FetchingDetail, WorkProcessingAction::FetchDetail)
        },
        (WorkProcessingPhase::FetchingDetail, WorkProcessingEvent::DetailFetched(detail)) => if detail.page_count == 0 {
            (WorkProcessingPhase::Finished, WorkProcessingAction::RejectWorkData(WorkDataProblem::NoPages))
        } else if flags.forced || !flags.has_rule_document {
            (WorkProcessingPhase::FetchingPages { detail, action: RuleAction::Download }, WorkProcessingAction::FetchPages)
        } else {
            (WorkProcessingPhase::Evaluating { detail, pages_loaded: false }, WorkProcessingAction::EvaluateRule { with_pages: false })
        },
        (WorkProcessingPhase::FetchingDetail, WorkProcessingEvent::DetailFailed(class)) => match spec_source_state_for(class) {
            Some(state) => (
                WorkProcessingPhase::MarkingSourceState { error: spec_pixiv_error_class(class) },
                WorkProcessingAction::MarkSourceState(state),
            ),
            None => finish(Err(PixivWorkProcessingError::Pixiv(spec_pixiv_error_class(class)))),
        },
        (WorkProcessingPhase::MarkingSourceState { error }, WorkProcessingEvent::SourceStateMarked) =>
            finish(Err(PixivWorkProcessingError::Pixiv(error))),
        (WorkProcessingPhase::Evaluating { detail, pages_loaded }, WorkProcessingEvent::RuleDecided(action)) =>
            if action == RuleAction::Ignore {
                finish(Ok(ProcessedPixivWork::Ignored))
            } else if pages_loaded {
                spec_after_pages(flags, detail, action)
            } else {
                (WorkProcessingPhase::FetchingPages { detail, action }, WorkProcessingAction::FetchPages)
            },
        (WorkProcessingPhase::Evaluating { detail, pages_loaded }, WorkProcessingEvent::PageMetadataRequired) =>
            if pages_loaded {
                (WorkProcessingPhase::Evaluating { detail, pages_loaded: true }, WorkProcessingAction::EvaluateRule { with_pages: true })
            } else {
                (WorkProcessingPhase::FetchingPagesForRule { detail }, WorkProcessingAction::FetchPages)
            },
        (WorkProcessingPhase::FetchingPagesForRule { detail }, WorkProcessingEvent::PagesFetched(pages)) =>
            if spec_pages_match(detail, pages.work_id, pages.page_indices@) {
                (WorkProcessingPhase::Evaluating { detail, pages_loaded: true }, WorkProcessingAction::EvaluateRule { with_pages: true })
            } else {
                (WorkProcessingPhase::Finished, WorkProcessingAction::RejectWorkData(WorkDataProblem::PagesMismatch))
            },
        (WorkProcessingPhase::FetchingPages { detail, action }, WorkProcessingEvent::PagesFetched(pages)) =>
            if spec_pages_match(detail, pages.work_id, pages.page_indices@) {
                spec_after_pages(flags, detail, action)
            } else {
                (WorkProcessingPhase::Finished, WorkProcessingAction::RejectWorkData(WorkDataProblem::PagesMismatch))
            },
        (WorkProcessingPhase::FetchingUgoira { action }, WorkProcessingEvent::UgoiraFetched) =>
            (WorkProcessingPhase::Saving { action }, spec_save_action(flags)),
        (WorkProcessingPhase::Saving { action }, WorkProcessingEvent::Saved { work_id }) => if action == RuleAction::Download {
            (WorkProcessingPhase::QueueingDownload { work_id }, WorkProcessingAction::QueueDownload { work_id, for_job: flags.for_job })
        } else {
            finish(Ok(ProcessedPixivWork::MetadataSaved { work_id }))
        },
        (WorkProcessingPhase::QueueingDownload { work_id }, WorkProcessingEvent::DownloadQueued { job_id }) =>
            finish(Ok(ProcessedPixivWork::DownloadQueued { work_id, job_id })),
        (_, WorkProcessingEvent::PixivFailed(class)) => finish(Err(PixivWorkProcessingError::Pixiv(spec_pixiv_error_class(class)))),
        (_, WorkProcessingEvent::StorageFailed(db)) => finish(Err(PixivWorkProcessingError::Storage(db))),
        _ => finish(Err(PixivWorkProcessingError::Rule)),
    }
}

fn after_pages(flags: WorkRequestFlags, detail: WorkDetailShape, action: RuleAction) -> (r: (WorkProcessingPhase, WorkProcessingAction))
    ensures
        r == spec_after_pages(flags, detail, action),
{
    if detail.ugoira {
        (WorkProcessingPhase::FetchingUgoira { action }, WorkProcessingAction::FetchUgoiraMeta)
    } else {
        (WorkProcessingPhase::Saving { action }, save_action(flags))
    }
}

fn save_action(flags: WorkRequestFlags) -> (a: WorkProcessingAction)
    ensures
        a == spec_save_action(flags),
{
    WorkProcessingAction::SaveMetadata {
        for_job: flags.for_job,
        remove_deletion_marker: flags.deletion_marker_policy == DeletionMarkerPolicy::RemoveOnSave,
    }
}

/// One decision of processing a work. A blocking deletion marker ends it
/// before anything is fetched; a work without pages, or whose page list
/// disagrees with its detail, is rejected; a detail failure for a hidden or
/// age-restricted work is recorded on the work before the failure is
/// returned; the rule decides (asking for the page metadata when it needs
/// it) unless the request is forced or has no rules; an ignored work is
/// never saved; a download is queued only after the metadata was saved.
/// Any other failure ends processing with its classified error.
pub fn work_step(flags: WorkRequestFlags, phase: WorkProcessingPhase, event: WorkProcessingEvent) -> (next: (WorkProcessingPhase, WorkProcessingAction))
    ensures
        next == spec_work_step(flags, phase, event),
{
    match (phase, event) {
        (WorkProcessingPhase::CheckingDeletionMarker, WorkProcessingEvent::DeletionMarker { exists }) => if exists {
            (WorkProcessingPhase::Finished, WorkProcessingAction::Complete(Ok(ProcessedPixivWork::BlockedByDeletionMarker)))
        } else {
            (WorkProcessingPhase::FetchingDetail, WorkProcessingAction::FetchDetail)
        },
        (WorkProcessingPhase::FetchingDetail, WorkProcessingEvent::DetailFetched(detail)) => if detail.page_count == 0 {
            (WorkProcessingPhase::Finished, WorkProcessingAction::RejectWorkData(WorkDataProblem::NoPages))
        } else if flags.forced || !flags.has_rule_document {
            (WorkProcessingPhase::FetchingPages { detail, action: RuleAction::Download }, WorkProcessingAction::FetchPages)
        } else {
            (WorkProcessingPhase::Evaluating { detail, pages_loaded: false }, WorkProcessingAction::EvaluateRule { with_pages: false })
        },
        (WorkProcessingPhase::FetchingDetail, WorkProcessingEvent::DetailFailed(class)) => match source_state_for(class) {
            Some(state) => (
                WorkProcessingPhase::MarkingSourceState { error: pixiv_error_class(class) },
                WorkProcessingAction::MarkSourceState(state),
            ),
            None => (WorkProcessingPhase::Finished, WorkProcessingAction::Complete(Err(pixiv_failure(class)))),
        },
        (WorkProcessingPhase::MarkingSourceState { error }, WorkProcessingEvent::SourceStateMarked) =>
            (WorkProcessingPhase::Finished, WorkProcessingAction::Complete(Err(PixivWorkProcessingError::Pixiv(error)))),
        (WorkProcessingPhase::Evaluating { detail, pages_loaded }, WorkProcessingEvent::RuleDecided(action)) =>
            if action == RuleAction::Ignore {
                (WorkProcessingPhase::Finished, WorkProcessingAction::Complete(Ok(ProcessedPixivWork::Ignored)))
            } else if pages_loaded {
                after_pages(flags, detail, action)
            } else {
                (WorkProcessingPhase::FetchingPages { detail, action }, WorkProcessingAction::FetchPages)
            },
        (WorkProcessingPhase::Evaluating { detail, pages_loaded }, WorkProcessingEvent::PageMetadataRequired) =>
            if pages_loaded {
                (WorkProcessingPhase::Evaluating { detail, pages_loaded: true }, WorkProcessingAction::EvaluateRule { with_pages: true })
            } else {
                (WorkProcessingPhase::FetchingPagesForRule { detail }, WorkProcessingAction::FetchPages)
            },
        (WorkProcessingPhase::FetchingPagesForRule { detail }, WorkProcessingEvent::PagesFetched(pages)) =>
            if pages_match(&detail, &pages) {
                (WorkProcessingPhase::Evaluating { detail, pages_loaded: true }, WorkProcessingAction::EvaluateRule { with_pages: true })
            } else {
                (WorkProcessingPhase::Finished, WorkProcessingAction::RejectWorkData(WorkDataProblem::PagesMismatch))
            },
        (WorkProcessingPhase::FetchingPages { detail, action }, WorkProcessingEvent::PagesFetched(pages)) =>
            if pages_match(&detail, &pages) {
                after_pages(flags, detail, action)
            } else {
                (WorkProcessingPhase::Finished, WorkProcessingAction::RejectWorkData(WorkDataProblem::PagesMismatch))
            },
        (WorkProcessingPhase::FetchingUgoira { action }, WorkProcessingEvent::UgoiraFetched) =>
            (WorkProcessingPhase::Saving { action }, save_action(flags)),
        (WorkProcessingPhase::Saving { action }, WorkProcessingEvent::Saved { work_id }) => if action == RuleAction::Download {
            (WorkProcessingPhase::QueueingDownload { work_id }, WorkProcessingAction::QueueDownload { work_id, for_job: flags.for_job })
        } else {
            (WorkProcessingPhase::Finished, WorkProcessingAction::Complete(Ok(ProcessedPixivWork::MetadataSaved { work_id })))
        },
        (WorkProcessingPhase::QueueingDownload { work_id }, WorkProcessingEvent::DownloadQueued { job_id }) =>
            (WorkProcessingPhase::Finished, WorkProcessingAction::Complete(Ok(ProcessedPixivWork::DownloadQueued { work_id, job_id }))),
        (_, WorkProcessingEvent::PixivFailed(class)) =>
            (WorkProcessingPhase::Finished, WorkProcessingAction::Complete(Err(pixiv_failure(class)))),
        (_, WorkProcessingEvent::StorageFailed(db)) =>
            (WorkProcessingPhase::Finished, WorkProcessingAction::Complete(Err(PixivWorkProcessingError::Storage(db)))),
        _ => (WorkProcessingPhase::Finished, WorkProcessingAction::Complete(Err(PixivWorkProcessingError::Rule))),
    }
}

/// Processing never saves an ignored work, never queues a download for a
/// work it did not save, and a blocking deletion marker ends it before any
/// Pixiv request: from phases that carry no `Ignore` (all of them, by
/// `lemma_ignore_never_carried`) a save is asked for only under another
/// action, a download only right after a save under `Download`, an ignored
/// result only from the rule's decision, and a found marker completes
/// processing at once.
pub proof fn lemma_work_processing_order(flags: WorkRequestFlags, phase: WorkProcessingPhase, event: WorkProcessingEvent)
    ensures
        ({
            let (next, action) = spec_work_step(flags, phase, event);
            phase_action_not_ignored(phase) && action is SaveMetadata
                ==> (next matches WorkProcessingPhase::Saving { action: a } && a != RuleAction::Ignore)
        }),
        ({
            let (next, action) = spec_work_step(flags, phase, event);
            action is QueueDownload ==> (phase == WorkProcessingPhase::Saving { action: RuleAction::Download }
                && event is Saved && next == (WorkProcessingPhase::QueueingDownload { work_id: action->work_id }))
        }),
        ({
            let (next, action) = spec_work_step(flags, phase, event);
            action == WorkProcessingAction::Complete(Ok(ProcessedPixivWork::Ignored))
                ==> (phase is Evaluating && event == WorkProcessingEvent::RuleDecided(RuleAction::Ignore))
        }),
        phase == WorkProcessingPhase::CheckingDeletionMarker && event == (WorkProcessingEvent::DeletionMarker { exists: true })
            ==> spec_work_step(flags, phase, event).1 == WorkProcessingAction::Complete(Ok(ProcessedPixivWork::BlockedByDeletionMarker)),
        flags.deletion_marker_policy == DeletionMarkerPolicy::RemoveOnSave ==> spec_start_work(flags).1 == WorkProcessingAction::FetchDetail,
{
}

/// The phases of processing never carry the `Ignore` action, so whatever is
/// saved was decided for download or for its metadata.
pub open spec fn phase_action_not_ignored(phase: WorkProcessingPhase) -> bool {
    match phase {
        WorkProcessingPhase::FetchingPages { action, .. } => action != RuleAction::Ignore,
        WorkProcessingPhase::FetchingUgoira { action } => action != RuleAction::Ignore,
        WorkProcessingPhase::Saving { action } => action != RuleAction::Ignore,
        _ => true,
    }
}

/// A forced request, or one without rules, downloads: once the detail is
/// in, the pages are fetched for a download.
pub proof fn lemma_forced_or_ruleless_downloads(flags: WorkRequestFlags, detail: WorkDetailShape)
    requires
        flags.forced || !flags.has_rule_document,
        detail.page_count > 0,
    ensures
        spec_work_step(flags, WorkProcessingPhase::FetchingDetail, WorkProcessingEvent::DetailFetched(detail))
            == (WorkProcessingPhase::FetchingPages { detail, action: RuleAction::Download }, WorkProcessingAction::FetchPages),
{
}

/// The step function keeps the phases free of the `Ignore` action.
pub proof fn lemma_ignore_never_carried(flags: WorkRequestFlags, phase: WorkProcessingPhase, event: WorkProcessingEvent)
    requires
        phase_action_not_ignored(phase),
    ensures
        phase_action_not_ignored(spec_work_step(flags, phase, event).0),
{
}

/// The work detail a phase is working on, when it carries one.
pub open spec fn phase_detail(phase: WorkProcessingPhase) -> Option<WorkDetailShape> {
    match phase {
        WorkProcessingPhase::Evaluating { detail, .. } => Some(detail),
        WorkProcessingPhase::FetchingPagesForRule { detail } => Some(detail),
        WorkProcessingPhase::FetchingPages { detail, .. } => Some(detail),
        _ => None,
    }
}

/// The frames of an ugoira are read before its metadata is saved: once the
/// pages of an ugoira are in and match (or, with the pages already in, the
/// rule decides on a non-ignoring action), the next call reads the ugoira
/// metadata under that action, while any other work goes straight to the
/// save, which removes the deletion marker exactly under the re-import
/// policy and is fenced exactly for a job. A save is asked for only after
/// the ugoira metadata came in, or from a phase whose work is no ugoira.
pub proof fn lemma_ugoira_metadata_before_save(flags: WorkRequestFlags, phase: WorkProcessingPhase, event: WorkProcessingEvent)
    ensures
        ({
            let (next, action) = spec_work_step(flags, phase, event);
            action is SaveMetadata ==> (
                (phase is FetchingUgoira && event == WorkProcessingEvent::UgoiraFetched)
                || (phase_detail(phase) matches Some(d) && !d.ugoira))
        }),
        ({
            let (next, action) = spec_work_step(flags, phase, event);
            action is SaveMetadata ==> action == (WorkProcessingAction::SaveMetadata {
                for_job: flags.for_job,
                remove_deletion_marker: flags.deletion_marker_policy == DeletionMarkerPolicy::RemoveOnSave,
            })
        }),
        ({
            let (next, action) = spec_work_step(flags, phase, event);
            action == WorkProcessingAction::FetchUgoiraMeta ==> (phase_detail(phase) matches Some(d) && d.ugoira)
        }),
{
}

/// The next call once the pages of a work are in and match its detail,
/// under a non-ignoring action: the ugoira metadata for an ugoira, the save
/// for any other work; the same when the rule decides after the pages were
/// loaded for it.
pub proof fn lemma_after_pages_by_kind(flags: WorkRequestFlags, detail: WorkDetailShape, action: RuleAction, pages: WorkPagesShape)
    requires
        action != RuleAction::Ignore,
    ensures
        ({
            let expected = if detail.ugoira {
                (WorkProcessingPhase::FetchingUgoira { action }, WorkProcessingAction::FetchUgoiraMeta)
            } else {
                (WorkProcessingPhase::Saving { action }, WorkProcessingAction::SaveMetadata {
                    for_job: flags.for_job,
                    remove_deletion_marker: flags.deletion_marker_policy == DeletionMarkerPolicy::RemoveOnSave,
                })
            };
            &&& spec_pages_match(detail, pages.work_id, pages.page_indices@) ==> spec_work_step(
                flags, WorkProcessingPhase::FetchingPages { detail, action }, WorkProcessingEvent::PagesFetched(pages)) == expected
            &&& spec_work_step(flags, WorkProcessingPhase::Evaluating { detail, pages_loaded: true },
                WorkProcessingEvent::RuleDecided(action)) == expected
        }),
{
}

/// How processing answers each call, for any work and request: a
/// blocking policy checks the deletion marker first and a missing marker
/// goes on to the detail; a detail without pages is rejected; a forced
/// request, or one without rules, fetches the pages for a download, and
/// otherwise the rule is evaluated without pages; pages that disagree with
/// the detail are rejected; the rule's page request loads the pages once;
/// an ignoring rule ends processing as ignored, another action fetches
/// the pages it still lacks; after the ugoira metadata the work is saved;
/// a saved download is queued and reported with the saved work and its
/// job, any other saved work is reported as saved; Pixiv and storage
/// failures end processing with their error.
pub proof fn lemma_work_processing_answers(
    flags: WorkRequestFlags,
    detail: WorkDetailShape,
    pages: WorkPagesShape,
    action: RuleAction,
    pages_loaded: bool,
    work_id: u128,
    job_id: u128,
    db: DbError,
)
    ensures
        spec_start_work(flags).1 == if flags.deletion_marker_policy == DeletionMarkerPolicy::Block {
            WorkProcessingAction::CheckDeletionMarker
        } else {
            WorkProcessingAction::FetchDetail
        },
        spec_work_step(flags, WorkProcessingPhase::CheckingDeletionMarker, WorkProcessingEvent::DeletionMarker { exists: false })
            == (WorkProcessingPhase::FetchingDetail, WorkProcessingAction::FetchDetail),
        spec_work_step(flags, WorkProcessingPhase::FetchingDetail, WorkProcessingEvent::DetailFetched(detail)) == if detail.page_count == 0 {
            (WorkProcessingPhase::Finished, WorkProcessingAction::RejectWorkData(WorkDataProblem::NoPages))
        } else if flags.forced || !flags.has_rule_document {
            (WorkProcessingPhase::FetchingPages { detail, action: RuleAction::Download }, WorkProcessingAction::FetchPages)
        } else {
            (WorkProcessingPhase::Evaluating { detail, pages_loaded: false }, WorkProcessingAction::EvaluateRule { with_pages: false })
        },
        !spec_pages_match(detail, pages.work_id, pages.page_indices@) ==> spec_work_step(flags,
            WorkProcessingPhase::FetchingPages { detail, action }, WorkProcessingEvent::PagesFetched(pages))
            == (WorkProcessingPhase::Finished, WorkProcessingAction::RejectWorkData(WorkDataProblem::PagesMismatch)),
        spec_work_step(flags, WorkProcessingPhase::FetchingPagesForRule { detail }, WorkProcessingEvent::PagesFetched(pages))
            == if spec_pages_match(detail, pages.work_id, pages.page_indices@) {
            (WorkProcessingPhase::Evaluating { detail, pages_loaded: true }, WorkProcessingAction::EvaluateRule { with_pages: true })
        } else {
            (WorkProcessingPhase::Finished, WorkProcessingAction::RejectWorkData(WorkDataProblem::PagesMismatch))
        },
        spec_work_step(flags, WorkProcessingPhase::Evaluating { detail, pages_loaded }, WorkProcessingEvent::PageMetadataRequired)
            == if pages_loaded {
            (WorkProcessingPhase::Evaluating { detail, pages_loaded: true }, WorkProcessingAction::EvaluateRule { with_pages: true })
        } else {
            (WorkProcessingPhase::FetchingPagesForRule { detail }, WorkProcessingAction::FetchPages)
        },
        spec_work_step(flags, WorkProcessingPhase::Evaluating { detail, pages_loaded }, WorkProcessingEvent::RuleDecided(RuleAction::Ignore))
            == (WorkProcessingPhase::Finished, WorkProcessingAction::Complete(Ok(ProcessedPixivWork::Ignored))),
        action != RuleAction::Ignore ==> spec_work_step(flags, WorkProcessingPhase::Evaluating { detail, pages_loaded: false },
            WorkProcessingEvent::RuleDecided(action)) == (WorkProcessingPhase::FetchingPages { detail, action }, WorkProcessingAction::FetchPages),
        spec_work_step(flags, WorkProcessingPhase::FetchingUgoira { action }, WorkProcessingEvent::UgoiraFetched)
            == (WorkProcessingPhase::Saving { action }, WorkProcessingAction::SaveMetadata {
                for_job: flags.for_job,
                remove_deletion_marker: flags.deletion_marker_policy == DeletionMarkerPolicy::RemoveOnSave,
            }),
        spec_work_step(flags, WorkProcessingPhase::Saving { action }, WorkProcessingEvent::Saved { work_id }) == if action == RuleAction::Download {
            (WorkProcessingPhase::QueueingDownload { work_id }, WorkProcessingAction::QueueDownload { work_id, for_job: flags.for_job })
        } else {
            (WorkProcessingPhase::Finished, WorkProcessingAction::Complete(Ok(ProcessedPixivWork::MetadataSaved { work_id })))
        },
        spec_work_step(flags, WorkProcessingPhase::QueueingDownload { work_id }, WorkProcessingEvent::DownloadQueued { job_id })
            == (WorkProcessingPhase::Finished, WorkProcessingAction::Complete(Ok(ProcessedPixivWork::DownloadQueued { work_id, job_id }))),
        forall|phase: WorkProcessingPhase| #[trigger] spec_work_step(flags, phase, WorkProcessingEvent::StorageFailed(db))
            == (WorkProcessingPhase::Finished, WorkProcessingAction::Complete(Err(PixivWorkProcessingError::Storage(db)))),
{
}

} // verus!
