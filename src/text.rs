//! The addresses the pipeline calls and the notices it sends to the operator,
//! each stated exactly.

use vstd::prelude::*;

verus! {

/// The source-control platform's commit lookup for `git_ref` in `org/repo`.
pub open spec fn commit_url(org: Seq<char>, repo: Seq<char>, git_ref: Seq<char>) -> Seq<char> {
    "https://api.github.com/repos/"@ + org + "/"@ + repo + "/commits/"@ + git_ref
}

/// The source archive of commit `sha` in `org/repo`.
pub open spec fn archive_url(org: Seq<char>, repo: Seq<char>, sha: Seq<char>) -> Seq<char> {
    "https://codeload.github.com/"@ + org + "/"@ + repo + "/tar.gz/"@ + sha
}

pub open spec fn build_started_text(app: Seq<char>, build_id: Seq<char>) -> Seq<char> {
    "Build in progress for "@ + app + " (this will take a few minutes)\nBuild ID is "@ + build_id
}

pub open spec fn still_pending_text(build_id: Seq<char>) -> Seq<char> {
    "Build "@ + build_id + " is still pending..."@
}

pub open spec fn released_text(app: Seq<char>, sha: Seq<char>) -> Seq<char> {
    "App "@ + app + " commit "@ + sha + " has successfully been released!"@
}

pub open spec fn build_failed_text(app: Seq<char>, build_id: Seq<char>) -> Seq<char> {
    "There was a problem with build "@ + build_id + " for "@ + app
        + ", cancelling release. Please check the build output."@
}

pub open spec fn final_status_unknown_text(app: Seq<char>, build_id: Seq<char>, reason: Seq<
    char,
>) -> Seq<char> {
    "Unable to get the final information for build "@ + build_id + " for "@ + app
        + ", cancelling release: "@ + reason
}

pub open spec fn resolution_failed_text(app: Seq<char>, git_ref: Seq<char>, reason: Seq<char>) -> Seq<
    char,
> {
    "Unable to resolve "@ + git_ref + " for "@ + app + ": "@ + reason
}

pub open spec fn submission_failed_text(app: Seq<char>, reason: Seq<char>) -> Seq<char> {
    "Unable to start a build for "@ + app + ": "@ + reason
}

pub open spec fn promotion_failed_text(app: Seq<char>, build_id: Seq<char>, reason: Seq<char>) -> Seq<
    char,
> {
    "Unable to release build "@ + build_id + " for "@ + app + ": "@ + reason
}

pub fn commit_info_url(org: &str, repo: &str, git_ref: &str) -> (r: String)
    ensures
        r@ == commit_url(org@, repo@, git_ref@),
{
    let mut r = String::from_str("https://api.github.com/repos/");
    r.append(org);
    r.append("/");
    r.append(repo);
    r.append("/commits/");
    r.append(git_ref);
    r
}

pub fn source_url(org: &str, repo: &str, git_sha: &str) -> (r: String)
    ensures
        r@ == archive_url(org@, repo@, git_sha@),
{
    let mut r = String::from_str("https://codeload.github.com/");
    r.append(org);
    r.append("/");
    r.append(repo);
    r.append("/tar.gz/");
    r.append(git_sha);
    r
}

/// The notice that a build has started, with its id.
pub fn build_response(app_name: &str, build_id: &str) -> (r: String)
    ensures
        r@ == build_started_text(app_name@, build_id@),
{
    let mut r = String::from_str("Build in progress for ");
    r.append(app_name);
    r.append(" (this will take a few minutes)\nBuild ID is ");
    r.append(build_id);
    r
}

pub fn pending_response(build_id: &str) -> (r: String)
    ensures
        r@ == still_pending_text(build_id@),
{
    let mut r = String::from_str("Build ");
    r.append(build_id);
    r.append(" is still pending...");
    r
}

pub fn released_response(app_name: &str, git_sha: &str) -> (r: String)
    ensures
        r@ == released_text(app_name@, git_sha@),
{
    let mut r = String::from_str("App ");
    r.append(app_name);
    r.append(" commit ");
    r.append(git_sha);
    r.append(" has successfully been released!");
    r
}

pub fn build_failed_response(app_name: &str, build_id: &str) -> (r: String)
    ensures
        r@ == build_failed_text(app_name@, build_id@),
{
    let mut r = String::from_str("There was a problem with build ");
    r.append(build_id);
    r.append(" for ");
    r.append(app_name);
    r.append(", cancelling release. Please check the build output.");
    r
}

pub fn final_status_unknown_response(app_name: &str, build_id: &str, reason: &str) -> (r: String)
    ensures
        r@ == final_status_unknown_text(app_name@, build_id@, reason@),
{
    let mut r = String::from_str("Unable to get the final information for build ");
    r.append(build_id);
    r.append(" for ");
    r.append(app_name);
    r.append(", cancelling release: ");
    r.append(reason);
    r
}

pub fn resolution_failed_response(app_name: &str, git_ref: &str, reason: &str) -> (r: String)
    ensures
        r@ == resolution_failed_text(app_name@, git_ref@, reason@),
{
    let mut r = String::from_str("Unable to resolve ");
    r.append(git_ref);
    r.append(" for ");
    r.append(app_name);
    r.append(": ");
    r.append(reason);
    r
}

pub fn submission_failed_response(app_name: &str, reason: &str) -> (r: String)
    ensures
        r@ == submission_failed_text(app_name@, reason@),
{
    let mut r = String::from_str("Unable to start a build for ");
    r.append(app_name);
    r.append(": ");
    r.append(reason);
    r
}

pub fn promotion_failed_response(app_name: &str, build_id: &str, reason: &str) -> (r: String)
    ensures
        r@ == promotion_failed_text(app_name@, build_id@, reason@),
{
    let mut r = String::from_str("Unable to release build ");
    r.append(build_id);
    r.append(" for ");
    r.append(app_name);
    r.append(": ");
    r.append(reason);
    r
}

} // verus!
