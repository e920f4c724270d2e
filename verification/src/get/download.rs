//! One download, from the address to the file that is kept.
//!
//! The steps are made by the caller, in the order that this module gives:
//! [`plan`] before the request, [`receive`] with the reply, and, where that
//! says to save, [`complete`] once the body has been written. The path of
//! the file to create comes out of `receive` alone, so nothing is written
//! for a reply that was not accepted.

use crate::get::client::{accepted, is_success, Client, ClientError, ClientErrorView, Reply};
use crate::get::utils::{header_number_of, header_text_of, Headers};
use crate::paths::{join, joined};
use crate::text::{append_decimal, decimal};
use vstd::prelude::*;
use vstd::string::*;

verus! {

/// The position of the last `/` in `s`, or -1 where it holds none.
pub open spec fn last_slash(s: Seq<char>) -> int
    decreases s.len(),
{
    if s.len() == 0 {
        -1
    } else if s.last() == '/' {
        s.len() - 1
    } else {
        last_slash(s.drop_last())
    }
}

/// What follows the last `/` of `url`: the name of the file it asks for.
pub open spec fn file_name(url: Seq<char>) -> Seq<char> {
    url.subrange(last_slash(url) + 1, url.len() as int)
}

/// What an address asks for.
#[derive(Debug, PartialEq, Eq)]
pub enum Target {
    /// The listing of a directory: the address ends in `/`.
    Listing,
    /// A file, to be saved at `path`.
    File { path: String },
}

/// The mathematical value of a [`Target`].
pub enum TargetView {
    Listing,
    File { path: Seq<char> },
}

impl View for Target {
    type V = TargetView;

    open spec fn view(&self) -> TargetView {
        match self {
            Target::Listing => TargetView::Listing,
            Target::File { path } => TargetView::File { path: path@ },
        }
    }
}

/// Why a download gave no file.
#[derive(Debug, PartialEq, Eq)]
pub enum DownloadError {
    /// The address holds no `/`: it names no path.
    NoPath,
    /// The reply to the request was not accepted.
    Request(ClientError),
    /// The number of bytes written is not the length that the response
    /// declared.
    LengthMismatch { expected: usize, saved: usize },
}

/// The mathematical value of a [`DownloadError`].
pub enum DownloadErrorView {
    NoPath,
    Request(ClientErrorView),
    LengthMismatch { expected: usize, saved: usize },
}

impl View for DownloadError {
    type V = DownloadErrorView;

    open spec fn view(&self) -> DownloadErrorView {
        match self {
            DownloadError::NoPath => DownloadErrorView::NoPath,
            DownloadError::Request(e) => DownloadErrorView::Request(e@),
            DownloadError::LengthMismatch { expected, saved } => DownloadErrorView::LengthMismatch {
                expected: *expected,
                saved: *saved,
            },
        }
    }
}

impl DownloadError {
    /// The text that describes the error.
    pub open spec fn spec_message(&self) -> Seq<char> {
        match self {
            DownloadError::NoPath =>
                "Address needs to contain a path, at least '/' after hostname"@,
            DownloadError::Request(e) => e.spec_message(),
            DownloadError::LengthMismatch { expected, saved } => "Number of bytes expected ("@
                + decimal(*expected as nat) + ") doesn't match bytes saved ("@ + decimal(
                *saved as nat,
            ) + ")"@,
        }
    }

    /// Describes the error; a length mismatch names both numbers.
    pub fn message(&self) -> (text: String)
        ensures
            text@ == self.spec_message(),
    {
        match self {
            DownloadError::NoPath => String::from_str(
                "Address needs to contain a path, at least '/' after hostname",
            ),
            DownloadError::Request(e) => e.message(),
            DownloadError::LengthMismatch { expected, saved } => {
                let mut text = String::from_str("Number of bytes expected (");
                append_decimal(&mut text, *expected as u64);
                text.append(") doesn't match bytes saved (");
                append_decimal(&mut text, *saved as u64);
                text.append(")");
                text
            },
        }
    }
}

/// A finished download: the length that the response declared, the number
/// of bytes written, and where they were written.
#[derive(Debug, PartialEq, Eq)]
pub struct DownloadOutcome {
    pub declared: usize,
    pub written: usize,
    pub path: String,
}

impl DownloadOutcome {
    /// A download counts as finished only where every declared byte was
    /// written.
    pub open spec fn wf(&self) -> bool {
        self.declared == self.written
    }
}

/// What to do with the body of a reply.
#[derive(Debug, PartialEq, Eq)]
pub enum Step {
    /// Give up for this reason; no file is to be created.
    Fail(DownloadError),
    /// Read the body and show it as a listing.
    ShowListing,
    /// Create the file at `path`, write the body to it, and pass the number
    /// of bytes that it then holds to `complete`, with `declared`.
    Save { path: String, declared: usize },
}

/// The mathematical value of a [`Step`].
pub enum StepView {
    Fail(DownloadErrorView),
    ShowListing,
    Save { path: Seq<char>, declared: usize },
}

impl View for Step {
    type V = StepView;

    open spec fn view(&self) -> StepView {
        match self {
            Step::Fail(e) => StepView::Fail(e@),
            Step::ShowListing => StepView::ShowListing,
            Step::Save { path, declared } => StepView::Save { path: path@, declared: *declared },
        }
    }
}

/// The mathematical value of a [`DownloadOutcome`].
pub struct DownloadOutcomeView {
    pub declared: usize,
    pub written: usize,
    pub path: Seq<char>,
}

impl View for DownloadOutcome {
    type V = DownloadOutcomeView;

    open spec fn view(&self) -> DownloadOutcomeView {
        DownloadOutcomeView { declared: self.declared, written: self.written, path: self.path@ }
    }
}

/// How a download ends.
#[derive(Debug, PartialEq, Eq)]
pub enum Completion {
    /// The file is whole and stays.
    Saved(DownloadOutcome),
    /// The file at `path` is to be removed, and `error` reported.
    Discard { path: String, error: DownloadError },
}

/// The mathematical value of a [`Completion`].
pub enum CompletionView {
    Saved(DownloadOutcomeView),
    Discard { path: Seq<char>, error: DownloadErrorView },
}

impl View for Completion {
    type V = CompletionView;

    open spec fn view(&self) -> CompletionView {
        match self {
            Completion::Saved(outcome) => CompletionView::Saved(outcome@),
            Completion::Discard { path, error } => CompletionView::Discard {
                path: path@,
                error: error@,
            },
        }
    }
}

/// How a download ends, once `written` bytes are in the file at `path` for
/// a response that declared `declared`.
pub open spec fn completed(path: Seq<char>, declared: usize, written: usize) -> CompletionView {
    if written == declared {
        CompletionView::Saved(DownloadOutcomeView { declared, written, path })
    } else {
        CompletionView::Discard {
            path,
            error: DownloadErrorView::LengthMismatch { expected: declared, saved: written },
        }
    }
}

/// What `url`, saved under the directory `dir`, asks for.
pub open spec fn planned(url: Seq<char>, dir: Seq<char>) -> Result<TargetView, DownloadErrorView> {
    if last_slash(url) < 0 {
        Err(DownloadErrorView::NoPath)
    } else if last_slash(url) == url.len() - 1 {
        Ok(TargetView::Listing)
    } else {
        Ok(TargetView::File { path: joined(dir, file_name(url)) })
    }
}

/// What to do with the body of `reply`, which answers a request for
/// `target`.
pub open spec fn received(target: TargetView, reply: Reply) -> StepView {
    match accepted(reply) {
        Err(e) => StepView::Fail(DownloadErrorView::Request(e)),
        Ok((_, length)) => match target {
            TargetView::Listing => StepView::ShowListing,
            TargetView::File { path } => StepView::Save { path, declared: length },
        },
    }
}

/// Finds the last `/` of `s`.
fn find_last_slash(s: &str) -> (found: Option<usize>)
    ensures
        match found {
            Some(at) => at == last_slash(s@),
            None => last_slash(s@) == -1,
        },
{
    let n = s.unicode_len();
    let mut found: Option<usize> = None;
    let mut i: usize = 0;
    for c in it: s.chars()
        invariant
            it.seq() == s@,
            n == s@.len(),
            i == it.index(),
            match found {
                Some(at) => at == last_slash(s@.subrange(0, i as int)),
                None => last_slash(s@.subrange(0, i as int)) == -1,
            },
    {
        assert(s@.subrange(0, i + 1).drop_last() =~= s@.subrange(0, i as int));
        if c == '/' {
            found = Some(i);
        }
        i = i + 1;
    }
    assert(s@.subrange(0, n as int) =~= s@);
    found
}

/// Reads what `url` asks for, before anything is requested. An address
/// without a `/` is refused. One that ends in `/` asks for a listing. Any
/// other asks for a file, which goes under `dir` by the name that follows
/// the last `/`.
pub fn plan(url: &str, dir: &str) -> (target: Result<Target, DownloadError>)
    ensures
        match target {
            Ok(t) => planned(url@, dir@) == Ok::<TargetView, DownloadErrorView>(t@),
            Err(e) => planned(url@, dir@) == Err::<TargetView, DownloadErrorView>(e@),
        },
{
    let at = match find_last_slash(url) {
        Some(at) => at,
        None => {
            return Err(DownloadError::NoPath);
        },
    };
    let len = url.unicode_len();
    proof {
        lemma_last_slash_bounds(url@);
    }
    if at + 1 == len {
        return Ok(Target::Listing);
    }
    let name = url.substring_char(at + 1, len);
    Ok(Target::File { path: join(dir, name) })
}

/// Decides what to do with the body of `reply`. A reply that
/// `Client::get_file` does not accept ends the download before any file is
/// created.
pub fn receive(client: &Client, target: Target, reply: &Reply) -> (step: Step)
    ensures
        step@ == received(target@, *reply),
{
    let length = match client.get_file(reply) {
        Ok((_, length)) => length,
        Err(e) => {
            return Step::Fail(DownloadError::Request(e));
        },
    };
    match target {
        Target::Listing => Step::ShowListing,
        Target::File { path } => Step::Save { path, declared: length },
    }
}

/// Ends a download once the body has been written: `written` is the number
/// of bytes that the file at `path` holds, `declared` the length that the
/// response declared. Where the two differ the file is to be removed.
pub fn complete(path: String, declared: usize, written: usize) -> (completion: Completion)
    ensures
        completion@ == completed(path@, declared, written),
        completion matches Completion::Saved(outcome) ==> outcome.wf(),
{
    if written != declared {
        Completion::Discard {
            path,
            error: DownloadError::LengthMismatch { expected: declared, saved: written },
        }
    } else {
        Completion::Saved(DownloadOutcome { declared, written, path })
    }
}

/// A response that declares no media type ends the download before any
/// file is created: whatever was asked for, the step that follows is a
/// failure, and for a successful status it names the missing declaration.
pub proof fn law_missing_content_type_saves_nothing(
    target: TargetView,
    status: u16,
    headers: Headers,
)
    requires
        headers.content_type is None,
    ensures
        received(target, Reply::Response { status, headers }) is Fail,
        is_success(status) ==> received(target, Reply::Response { status, headers })
            == StepView::Fail(DownloadErrorView::Request(ClientErrorView::NoContentType)),
{
}

/// A file is created only for a successful response that declares, in
/// readable form, both its media type and its length; the length is the
/// one that the file is later held to.
pub proof fn law_saving_needs_both_declarations(target: TargetView, reply: Reply)
    requires
        received(target, reply) is Save,
    ensures
        reply is Response,
        is_success(reply->status),
        header_text_of(reply->headers.content_type) is Some,
        header_number_of(reply->headers.content_length) == Some(
            received(target, reply)->declared,
        ),
        target == (TargetView::File { path: received(target, reply)->Save_path }),
{
}

/// A body that ends short of the declared length, or runs past it, leaves
/// no file: the file is to be removed, and the error names both numbers. A
/// download is reported as saved only where the two are equal.
pub proof fn law_length_mismatch_discards_the_file(
    path: Seq<char>,
    declared: usize,
    written: usize,
)
    ensures
        declared != written ==> completed(path, declared, written) == (CompletionView::Discard {
            path,
            error: DownloadErrorView::LengthMismatch { expected: declared, saved: written },
        }),
        completed(path, declared, written) is Saved <==> declared == written,
{
}

/// A file is saved directly under the directory that was asked for, by a
/// name that is not empty and holds no `/`: whatever the address, the path
/// to create is the directory, one `/` where the directory does not end in
/// one, and that name.
pub proof fn law_saved_file_goes_under_the_directory(url: Seq<char>, dir: Seq<char>)
    requires
        planned(url, dir) is Ok,
        planned(url, dir)->Ok_0 is File,
    ensures
        file_name(url).len() > 0,
        forall|i: int| 0 <= i < file_name(url).len() ==> file_name(url)[i] != '/',
        planned(url, dir)->Ok_0->path == if dir.len() > 0 && dir.last() != '/' {
            dir + seq!['/'] + file_name(url)
        } else {
            dir + file_name(url)
        },
{
    lemma_last_slash_bounds(url);
}

/// The last `/` lies inside the text, or there is none.
pub proof fn lemma_last_slash_bounds(s: Seq<char>)
    ensures
        -1 <= last_slash(s) < s.len(),
        last_slash(s) >= 0 ==> s[last_slash(s)] == '/',
        forall|i: int| last_slash(s) < i < s.len() ==> s[i] != '/',
    decreases s.len(),
{
    if s.len() > 0 {
        lemma_last_slash_bounds(s.drop_last());
        if s.last() != '/' {
            assert forall|i: int| last_slash(s) < i < s.len() implies s[i] != '/' by {
                if i < s.len() - 1 {
                    assert(s.drop_last()[i] == s[i]);
                }
            }
        }
    }
}

} // verus!
