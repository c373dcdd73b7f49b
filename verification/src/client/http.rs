//! The three requests of the task service, as values that a driver can send.
//!
//! The client holds the base address and the session credential and turns
//! each operation into a request: method, address, headers and, for a claim,
//! the identifiers to place in the body. It sends nothing itself.

use vstd::prelude::*;
use vstd::string::StringExecFns;

use crate::client::config::{AUDIT_TASK, PRODUCE_TASK};
use crate::client::error::ClaimError;
use crate::text::{decimal_text, parse_u64, parsed_u64, push_decimal, same_text};

verus! {

/// Seconds after which a driver gives up on a request.
pub const REQUEST_TIMEOUT_SECS: u64 = 10;

/// The agent name that a driver presents to the service.
pub const USER_AGENT: &'static str =
    "Mozilla/5.0 (Macintosh; Intel Mac OS X 10_15_7) AppleWebKit/537.36 (KHTML, like Gecko) Chrome/120.0.0.0 Safari/537.36";

/// The method of a request.
#[derive(Debug, Clone, Copy, PartialEq, Eq, Structural)]
pub enum HttpMethod {
    Get,
    Post,
}

/// One header line of a request.
#[derive(Debug, Clone, PartialEq, Eq)]
pub struct HttpHeader {
    pub name: String,
    pub value: String,
}

/// The body of a claim: a JSON object with the single member `field`, whose
/// value is the array of `ids`.
#[derive(Debug, Clone, PartialEq, Eq)]
pub struct ClaimBody {
    pub field: String,
    pub ids: Vec<u64>,
}

/// A request ready to be sent. Headers are applied in order.
#[derive(Debug, Clone, PartialEq, Eq)]
pub struct HttpRequest {
    pub method: HttpMethod,
    pub url: String,
    pub headers: Vec<HttpHeader>,
    pub body: Option<ClaimBody>,
}

/// The options of a listing. An option left out takes its default.
#[derive(Debug, Clone, PartialEq, Eq)]
pub struct TaskListOptions {
    pub task_type: Option<String>,
    pub pn: Option<i64>,
    pub rn: Option<i64>,
    pub clue_id: Option<String>,
    pub clue_type: Option<i64>,
    pub step: Option<i64>,
    pub subject: Option<i64>,
}

/// A header line as text.
pub struct HeaderView {
    pub name: Seq<char>,
    pub value: Seq<char>,
}

/// A claim body as text and numbers.
pub struct BodyView {
    pub field: Seq<char>,
    pub ids: Seq<u64>,
}

/// A request as text and numbers.
pub struct RequestView {
    pub method: HttpMethod,
    pub url: Seq<char>,
    pub headers: Seq<HeaderView>,
    pub body: Option<BodyView>,
}

/// The values that a listing is made with, defaults filled in.
pub struct ListQuery {
    pub task_type: Seq<char>,
    pub pn: int,
    pub rn: int,
    pub clue_id: Seq<char>,
    pub clue_type: int,
    pub step: int,
    pub subject: int,
}

impl View for HttpHeader {
    type V = HeaderView;

    open spec fn view(&self) -> HeaderView {
        HeaderView { name: self.name@, value: self.value@ }
    }
}

impl View for ClaimBody {
    type V = BodyView;

    open spec fn view(&self) -> BodyView {
        BodyView { field: self.field@, ids: self.ids@ }
    }
}

impl View for HttpRequest {
    type V = RequestView;

    open spec fn view(&self) -> RequestView {
        RequestView {
            method: self.method,
            url: self.url@,
            headers: Seq::new(self.headers@.len(), |i: int| self.headers@[i]@),
            body: match self.body {
                Some(body) => Some(body@),
                None => None,
            },
        }
    }
}

impl View for TaskListOptions {
    type V = ListQuery;

    /// An option left out counts as: task type `audittask`, page 1, page
    /// size 20, no item identifier, clue type 1, step 1, subject 2.
    open spec fn view(&self) -> ListQuery {
        ListQuery {
            task_type: match self.task_type {
                Some(text) => text@,
                None => "audittask"@,
            },
            pn: match self.pn {
                Some(n) => n as int,
                None => 1,
            },
            rn: match self.rn {
                Some(n) => n as int,
                None => 20,
            },
            clue_id: match self.clue_id {
                Some(text) => text@,
                None => ""@,
            },
            clue_type: match self.clue_type {
                Some(n) => n as int,
                None => 1,
            },
            step: match self.step {
                Some(n) => n as int,
                None => 1,
            },
            subject: match self.subject {
                Some(n) => n as int,
                None => 2,
            },
        }
    }
}

/// Whether a task type selects the alternate mode, in which tasks are claimed
/// by their secondary identifier.
pub open spec fn is_produce_task(task_type: Seq<char>) -> bool {
    task_type == "producetask"@
}

/// The header that carries the session credential.
pub open spec fn cookie_header(cookie: Seq<char>) -> HeaderView {
    HeaderView { name: "Cookie"@, value: cookie }
}

/// The header that asks for a JSON answer.
pub open spec fn accept_json_header() -> HeaderView {
    HeaderView { name: "Accept"@, value: "application/json"@ }
}

/// The header that announces a JSON body.
pub open spec fn content_json_header() -> HeaderView {
    HeaderView { name: "Content-Type"@, value: "application/json"@ }
}

/// The address of a listing: the path of the task type under the base
/// address, then the query values in a fixed order, each written verbatim.
pub open spec fn list_url(base: Seq<char>, query: ListQuery) -> Seq<char> {
    base + "/edushop/question/"@ + query.task_type + "/list?pn="@ + decimal_text(query.pn)
        + "&rn="@ + decimal_text(query.rn) + "&clueID="@ + query.clue_id + "&clueType="@
        + decimal_text(query.clue_type) + "&step="@ + decimal_text(query.step) + "&subject="@
        + decimal_text(query.subject)
}

/// The listing request.
pub open spec fn list_request(base: Seq<char>, cookie: Seq<char>, query: ListQuery) -> RequestView {
    RequestView {
        method: HttpMethod::Get,
        url: list_url(base, query),
        headers: seq![cookie_header(cookie), accept_json_header()],
        body: None,
    }
}

/// The address that claims are submitted to.
pub open spec fn claim_url(base: Seq<char>, produce: bool) -> Seq<char> {
    base + "/edushop/question/"@ + (if produce {
        "producetaskcommit"@
    } else {
        "audittaskcommit"@
    }) + "/claim"@
}

/// The name of the body member that holds the submitted identifiers.
pub open spec fn claim_field(produce: bool) -> Seq<char> {
    if produce {
        "clueIDs"@
    } else {
        "taskIDs"@
    }
}

/// The claim request for the identifiers `ids`.
pub open spec fn claim_request(
    base: Seq<char>,
    cookie: Seq<char>,
    produce: bool,
    ids: Seq<u64>,
) -> RequestView {
    RequestView {
        method: HttpMethod::Post,
        url: claim_url(base, produce),
        headers: seq![cookie_header(cookie), content_json_header(), accept_json_header()],
        body: Some(BodyView { field: claim_field(produce), ids }),
    }
}

/// The request that identifies the signed-in user.
pub open spec fn user_info_request(base: Seq<char>, cookie: Seq<char>) -> RequestView {
    RequestView {
        method: HttpMethod::Get,
        url: base + "/edushop/user/common/info"@,
        headers: seq![cookie_header(cookie), accept_json_header()],
        body: None,
    }
}

/// Whether every one of `texts` is the decimal text of an unsigned number.
pub open spec fn all_ids_valid(texts: Seq<String>) -> bool {
    forall|i: int| 0 <= i < texts.len() ==> parsed_u64(#[trigger] texts[i]@) is Some
}

/// The numbers that `texts` denote, in order.
pub open spec fn id_numbers(texts: Seq<String>) -> Seq<u64> {
    Seq::new(texts.len(), |i: int| parsed_u64(texts[i]@).unwrap())
}

/// The client of the task service: where it is and who asks.
pub struct HttpClient {
    base_url: String,
    cookie: String,
}

/// The header line `name: value`.
fn make_header(name: &str, value: &str) -> (header: HttpHeader)
    ensures
        header@ == (HeaderView { name: name@, value: value@ }),
{
    HttpHeader { name: String::from_str(name), value: String::from_str(value) }
}

impl HttpClient {
    /// The base address that every request starts with.
    pub closed spec fn base_url(&self) -> Seq<char> {
        self.base_url@
    }

    /// The session credential that every request carries.
    pub closed spec fn cookie(&self) -> Seq<char> {
        self.cookie@
    }

    /// A client for the service at `base_url`, asking with `cookie`.
    pub fn new(base_url: String, cookie: String) -> (client: Self)
        ensures
            client.base_url() == base_url@,
            client.cookie() == cookie@,
    {
        HttpClient { base_url, cookie }
    }

    /// The request that lists the tasks matching `options`.
    pub fn get_audit_task_list(&self, options: &TaskListOptions) -> (request: HttpRequest)
        ensures
            request@ == list_request(self.base_url(), self.cookie(), options@),
    {
        let task_type: &str = match &options.task_type {
            Some(text) => text.as_str(),
            None => AUDIT_TASK,
        };
        let pn: i64 = match options.pn {
            Some(n) => n,
            None => 1,
        };
        let rn: i64 = match options.rn {
            Some(n) => n,
            None => 20,
        };
        let clue_id: &str = match &options.clue_id {
            Some(text) => text.as_str(),
            None => "",
        };
        let clue_type: i64 = match options.clue_type {
            Some(n) => n,
            None => 1,
        };
        let step: i64 = match options.step {
            Some(n) => n,
            None => 1,
        };
        let subject: i64 = match options.subject {
            Some(n) => n,
            None => 2,
        };
        let mut url = self.base_url.clone();
        url.append("/edushop/question/");
        url.append(task_type);
        url.append("/list?pn=");
        push_decimal(&mut url, pn);
        url.append("&rn=");
        push_decimal(&mut url, rn);
        url.append("&clueID=");
        url.append(clue_id);
        url.append("&clueType=");
        push_decimal(&mut url, clue_type);
        url.append("&step=");
        push_decimal(&mut url, step);
        url.append("&subject=");
        push_decimal(&mut url, subject);
        let mut headers: Vec<HttpHeader> = Vec::new();
        headers.push(make_header("Cookie", self.cookie.as_str()));
        headers.push(make_header("Accept", "application/json"));
        let request = HttpRequest { method: HttpMethod::Get, url, headers, body: None };
        assert(request@.headers =~= seq![cookie_header(self.cookie()), accept_json_header()]);
        request
    }

    /// The request that claims `task_ids`, or the first of them that is not
    /// the decimal text of an unsigned number. In the alternate mode the
    /// identifiers go to the commit address of that mode under the member
    /// `clueIDs`, otherwise to the ordinary one under `taskIDs`.
    pub fn claim_audit_task(
        &self,
        task_ids: &Vec<String>,
        task_type: &str,
    ) -> (result: Result<HttpRequest, ClaimError>)
        ensures
            match result {
                Ok(request) => {
                    &&& all_ids_valid(task_ids@)
                    &&& request@ == claim_request(
                        self.base_url(),
                        self.cookie(),
                        is_produce_task(task_type@),
                        id_numbers(task_ids@),
                    )
                },
                Err(error) => exists|bad: int|
                    {
                        &&& 0 <= bad < task_ids@.len()
                        &&& parsed_u64(#[trigger] task_ids@[bad]@) is None
                        &&& forall|i: int|
                            0 <= i < bad ==> parsed_u64(#[trigger] task_ids@[i]@) is Some
                        &&& error == (ClaimError::InvalidId { id: task_ids@[bad] })
                    },
            },
    {
        let produce = same_text(task_type, PRODUCE_TASK);
        let mut url = self.base_url.clone();
        url.append("/edushop/question/");
        if produce {
            url.append("producetaskcommit");
        } else {
            url.append("audittaskcommit");
        }
        url.append("/claim");
        let mut ids: Vec<u64> = Vec::new();
        let mut i: usize = 0;
        while i < task_ids.len()
            invariant
                i <= task_ids@.len(),
                ids@.len() == i,
                forall|j: int| 0 <= j < i ==> parsed_u64(#[trigger] task_ids@[j]@) == Some(ids@[j]),
            decreases task_ids@.len() - i,
        {
            match parse_u64(task_ids[i].as_str()) {
                Some(id) => {
                    ids.push(id);
                },
                None => {
                    return Err(ClaimError::InvalidId { id: task_ids[i].clone() });
                },
            }
            i += 1;
        }
        assert(ids@ =~= id_numbers(task_ids@));
        let field = if produce {
            String::from_str("clueIDs")
        } else {
            String::from_str("taskIDs")
        };
        let mut headers: Vec<HttpHeader> = Vec::new();
        headers.push(make_header("Cookie", self.cookie.as_str()));
        headers.push(make_header("Content-Type", "application/json"));
        headers.push(make_header("Accept", "application/json"));
        let request = HttpRequest {
            method: HttpMethod::Post,
            url,
            headers,
            body: Some(ClaimBody { field, ids }),
        };
        assert(request@.headers =~= seq![
            cookie_header(self.cookie()),
            content_json_header(),
            accept_json_header(),
        ]);
        Ok(request)
    }

    /// The request that identifies the signed-in user.
    pub fn get_user_info(&self) -> (request: HttpRequest)
        ensures
            request@ == user_info_request(self.base_url(), self.cookie()),
    {
        let mut url = self.base_url.clone();
        url.append("/edushop/user/common/info");
        let mut headers: Vec<HttpHeader> = Vec::new();
        headers.push(make_header("Cookie", self.cookie.as_str()));
        headers.push(make_header("Accept", "application/json"));
        let request = HttpRequest { method: HttpMethod::Get, url, headers, body: None };
        assert(request@.headers =~= seq![cookie_header(self.cookie()), accept_json_header()]);
        request
    }
}

} // verus!
