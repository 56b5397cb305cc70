//! The service description served at `/` and `/health`.
use vstd::prelude::*;
use crate::clock::{dmy_text, instant_dmy, instant_in_range, now, UtcInstant};
use crate::reply::{Body, HttpReply, Reply};

verus! {

/// What `/` answers: the package name and version, no database name,
/// and today's date.
#[derive(Clone, Debug, PartialEq)]
pub struct ApiInfo {
    pub api: String,
    pub version: String,
    pub database: Option<String>,
    pub date_created: String,
}

/// The description for a given date text.
pub fn api_info(api: &str, version: &str, date_created: String) -> (r: ApiInfo)
    ensures
        r.api@ == api@,
        r.version@ == version@,
        r.database is None,
        r.date_created == date_created,
{
    ApiInfo {
        api: api.to_string(),
        version: version.to_string(),
        database: None,
        date_created,
    }
}

/// The body of `root`: the description dated today, as `dd-mm-yyyy`.
pub fn root_info(api: &str, version: &str) -> (r: ApiInfo)
    ensures
        r.api@ == api@,
        r.version@ == version@,
        r.database is None,
        exists|t: UtcInstant| instant_in_range(t) && r.date_created@ == dmy_text(t.secs, t.nanos),
{
    let t = now();
    let date = instant_dmy(&t);
    api_info(api, version, date)
}

/// What `/` and `/health` answer: 200 with the description.
pub fn root(api: &str, version: &str) -> (r: HttpReply)
    ensures
        r.status == 200,
        r.body matches Body::Json(Reply::Info(info)) && info.api@ == api@ && info.version@
            == version@ && info.database is None && exists|t: UtcInstant|
            instant_in_range(t) && info.date_created@ == dmy_text(t.secs, t.nanos),
{
    HttpReply { status: 200, body: Body::Json(Reply::Info(root_info(api, version))) }
}

} // verus!
