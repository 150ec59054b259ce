//! What the read-only routes answer.

use vstd::prelude::*;

verus! {

/// An HTTP answer.
#[derive(Debug)]
pub struct Reply {
    pub status: u16,
    pub content_type: &'static str,
    pub body: String,
}

/// The answer to a request for the latest report. `content` is what the
/// link to the most recent report leads to, `None` where it could not be
/// read. A report is passed on as it is stored.
pub fn get_latest_report(content: Option<String>) -> (reply: Reply)
    ensures
        match content {
            Some(text) => reply.status == 200 && reply.content_type@ == "application/json"@
                && reply.body@ == text@,
            None => reply.status == 500 && reply.content_type@ == "text/plain"@ && reply.body@
                == "Failed to get latest report"@,
        },
{
    match content {
        Some(text) => Reply { status: 200, content_type: "application/json", body: text },
        None => Reply {
            status: 500,
            content_type: "text/plain",
            body: "Failed to get latest report".to_owned(),
        },
    }
}

/// What the runner says of itself where it names its license and the
/// place of its source code.
pub open spec fn greeting(
    name: Seq<char>,
    version: Seq<char>,
    license: Seq<char>,
    repository: Seq<char>,
) -> Seq<char> {
    "Hello! I am "@ + name + " version "@ + version + ". I am licensed under "@ + license
        + ", and my source code is at "@ + repository + "."@
}

/// What the runner says of itself where it was built without a license
/// or without the place of its source code.
pub open spec fn reproach(name: Seq<char>, version: Seq<char>) -> Seq<char> {
    "Hello! I am "@ + name + " version "@ + version
        + ". The person who compiled me is violating the terms of the GNU Affero General Public License by hiding my source code from you!!"@
}

/// The answer to a request for the root: the runner's name and version,
/// and its license and the place of its source code if both are known.
pub fn hello(name: &str, version: &str, license: &str, repository: &str) -> (text: String)
    ensures
        text@ == if license@.len() == 0 || repository@.len() == 0 {
            reproach(name@, version@)
        } else {
            greeting(name@, version@, license@, repository@)
        },
{
    let mut text = "Hello! I am ".to_owned();
    text.append(name);
    text.append(" version ");
    text.append(version);
    if license.is_empty() || repository.is_empty() {
        text.append(
            ". The person who compiled me is violating the terms of the GNU Affero General Public License by hiding my source code from you!!",
        );
    } else {
        text.append(". I am licensed under ");
        text.append(license);
        text.append(", and my source code is at ");
        text.append(repository);
        text.append(".");
    }
    text
}

} // verus!
