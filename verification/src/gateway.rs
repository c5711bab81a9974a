//! The five gateway commands.
//!
//! Each command is planned here — paths resolved, URLs and payload built,
//! outcomes classified — with a contract that pins the result down; the
//! host performs the filesystem and network effects the plan names.

use vstd::prelude::*;
use vstd::string::StringExecFns;
use crate::json::relay_payload;
use crate::json::relay_payload_view;
use crate::paths::container_dir;
use crate::paths::container_dir_for;
use crate::paths::document_path;
use crate::paths::document_path_for;
use crate::urls::relay_url;
use crate::urls::relay_url_view;

verus! {

/// The error string returned when the home-directory variable is unset,
/// exactly as the environment lookup reports that condition.
pub open spec fn missing_home_message() -> Seq<char> {
    "environment variable not found"@
}

/// Where persist-document writes: the directory to create and the file
/// path to overwrite.
#[derive(Debug)]
pub struct PersistPlan {
    pub directory: String,
    pub file_path: String,
}

/// Plans persist-document: the cloud-sync directory, created idempotently
/// before the write, and the document's path, overwritten with the content.
/// Fails exactly when the home directory is not provided.
pub fn persist_document_plan(home: Option<&str>, filename: &str) -> (r: Result<
    PersistPlan,
    String,
>)
    ensures
        home matches Some(h) ==> (r matches Ok(plan) && plan.directory@ == container_dir(h@)
            && plan.file_path@ == document_path(h@, filename@)),
        home is None ==> (r matches Err(m) && m@ == missing_home_message()),
{
    match home {
        Some(h) => Ok(
            PersistPlan {
                directory: container_dir_for(h),
                file_path: document_path_for(h, filename),
            },
        ),
        None => Err("environment variable not found".to_owned()),
    }
}

/// Plans retrieve-document: the path whose whole contents are read back as
/// text — the same path persist-document writes for that name. Fails
/// exactly when the home directory is not provided.
pub fn retrieve_document_plan(home: Option<&str>, filename: &str) -> (r: Result<String, String>)
    ensures
        home matches Some(h) ==> (r matches Ok(p) && p@ == document_path(h@, filename@)),
        home is None ==> (r matches Err(m) && m@ == missing_home_message()),
{
    match home {
        Some(h) => Ok(document_path_for(h, filename)),
        None => Err("environment variable not found".to_owned()),
    }
}

/// Plans enumerate-documents: the directory whose entries are listed — the
/// same directory persist-document writes into. Fails exactly when the
/// home directory is not provided.
pub fn enumerate_documents_plan(home: Option<&str>) -> (r: Result<String, String>)
    ensures
        home matches Some(h) ==> (r matches Ok(d) && d@ == container_dir(h@)),
        home is None ==> (r matches Err(m) && m@ == missing_home_message()),
{
    match home {
        Some(h) => Ok(container_dir_for(h)),
        None => Err("environment variable not found".to_owned()),
    }
}

/// The names among a directory listing's entries that decoded as text, in
/// the order the listing yielded them; undecodable names are dropped.
pub open spec fn decoded_names(entries: Seq<Option<String>>) -> Seq<String>
    decreases entries.len(),
{
    if entries.len() == 0 {
        Seq::empty()
    } else {
        let init = decoded_names(entries.drop_last());
        match entries.last() {
            Some(name) => init.push(name),
            None => init,
        }
    }
}

/// Keeps the listing entries that decoded as text and silently drops the
/// rest: enumerate-documents' best-effort policy.
pub fn decoded_file_names(entries: &Vec<Option<String>>) -> (r: Vec<String>)
    ensures
        r@ == decoded_names(entries@),
{
    let mut out: Vec<String> = Vec::new();
    let mut i: usize = 0;
    while i < entries.len()
        invariant
            i <= entries@.len(),
            out@ == decoded_names(entries@.subrange(0, i as int)),
        decreases entries@.len() - i,
    {
        match &entries[i] {
            Some(name) => out.push(name.clone()),
            None => {},
        }
        proof {
            assert(entries@.subrange(0, i as int + 1).drop_last() =~= entries@.subrange(
                0,
                i as int,
            ));
            assert(entries@.subrange(0, i as int + 1).last() == entries@[i as int]);
        }
        i += 1;
    }
    proof {
        assert(entries@.subrange(0, entries@.len() as int) =~= entries@);
    }
    out
}

/// Classifies the probe's transport outcome: a response of any status means
/// the host answered and the probed URL is returned; a transport failure is
/// reported with its description, never as success.
pub fn probe_response(url: String, outcome: Result<(), String>) -> (r: Result<String, String>)
    ensures
        outcome is Ok ==> (r matches Ok(u) && u@ == url@),
        outcome matches Err(e) ==> (r matches Err(m) && m@ == "Connection failed: "@ + e@),
{
    match outcome {
        Ok(_) => Ok(url),
        Err(e) => {
            let mut m = "Connection failed: ".to_owned();
            m.append(e.as_str());
            Err(m)
        },
    }
}

/// What relay-shell-command sends: the fixed endpoint on the host and the
/// JSON payload carrying the command text.
#[derive(Debug)]
pub struct RelayPlan {
    pub url: String,
    pub payload: String,
}

/// Plans relay-shell-command: the fixed endpoint `http://<host>:3000/exec`
/// and the payload that carries the command text verbatim.
///
/// The remote endpoint is trusted implicitly: there is no authentication,
/// no transport encryption, and no sanitization of the command text. That
/// gap is the command's design, kept visible here rather than hidden.
pub fn relay_command_plan(host: &str, command: &str) -> (r: RelayPlan)
    ensures
        r.url@ == relay_url_view(host@),
        r.payload@ == relay_payload_view(command@),
{
    RelayPlan { url: relay_url(host), payload: relay_payload(command) }
}

} // verus!
