//! RESTler's error buckets: every recorded request that the server answered with an error,
//! and the summary of them by endpoint.

use crate::error::{Fault, ProcessingError};
use crate::json::{item_views, json_document, member_views, read, Json, JsonView};
use crate::output::{
    all_or_first_error, concat_or_first_error, lemma_all_or_first_error_start,
    lemma_all_or_first_error_step, lemma_concat_first_error_stays,
    lemma_concat_or_first_error_start, lemma_concat_or_first_error_step, lemma_first_error_stays,
};
use crate::text::{same_text, starts_with};
use vstd::prelude::*;

verus! {

/// One recorded request with the response to it.
#[derive(Debug, Clone, PartialEq, Eq)]
pub struct BucketData {
    pub method: String,
    pub path: String,
    pub query: String,
    pub body: String,
    pub code: u16,
    pub content: String,
}

/// A recorded request as a plain value.
pub ghost struct BucketView {
    pub method: Seq<char>,
    pub path: Seq<char>,
    pub query: Seq<char>,
    pub body: Seq<char>,
    pub code: u16,
    pub content: Seq<char>,
}

impl View for BucketData {
    type V = BucketView;

    open spec fn view(&self) -> BucketView {
        BucketView {
            method: self.method@,
            path: self.path@,
            query: self.query@,
            body: self.body@,
            code: self.code,
            content: self.content@,
        }
    }
}

/// The views of records, one for one.
pub open spec fn record_views(records: Seq<BucketData>) -> Seq<BucketView> {
    records.map_values(|record: BucketData| record@)
}

/// How often each kind of failure was seen at one endpoint.
#[derive(Debug, Clone, PartialEq, Eq)]
pub struct DedupFailureEntry {
    pub method: String,
    pub path: String,
    pub failures: Vec<(String, usize)>,
}

/// A summary entry as a plain value.
pub ghost struct EntryView {
    pub method: Seq<char>,
    pub path: Seq<char>,
    pub failures: Seq<(Seq<char>, nat)>,
}

impl View for DedupFailureEntry {
    type V = EntryView;

    open spec fn view(&self) -> EntryView {
        EntryView {
            method: self.method@,
            path: self.path@,
            failures: self.failures@.map_values(|pair: (String, usize)| (pair.0@, pair.1 as nat)),
        }
    }
}

/// The views of summary entries, one for one.
pub open spec fn entry_views(entries: Seq<DedupFailureEntry>) -> Seq<EntryView> {
    entries.map_values(|entry: DedupFailureEntry| entry@)
}

/// The one kind of failure that the buckets hold.
pub const SERVER_ERROR: &'static str = "server_error";

/// The record that a member of a bucket stands for: a `request` with its `RequestData`
/// (`method`, `path`, `query` and `body`, all strings) and a `response` with its
/// `ResponseData` (`code`, a `u16`, and `content`, a string).
pub open spec fn record_of(pair: JsonView) -> Option<BucketView> {
    match (pair.member("request"@), pair.member("response"@)) {
        (Some(request), Some(response)) => match (
            request.member("RequestData"@),
            response.member("ResponseData"@),
        ) {
            (Some(sent), Some(received)) => match (
                sent.member_text("method"@),
                sent.member_text("path"@),
                sent.member_text("query"@),
                sent.member_text("body"@),
                received.member("code"@),
                received.member_text("content"@),
            ) {
                (
                    Some(method),
                    Some(path),
                    Some(query),
                    Some(body),
                    Some(JsonView::Number(Some(code))),
                    Some(content),
                ) => if code <= u16::MAX {
                    Some(BucketView { method, path, query, body, code: code as u16, content })
                } else {
                    None
                },
                _ => None,
            },
            _ => None,
        },
        _ => None,
    }
}

/// The record of a member of a bucket, or the error of a member that is none.
pub open spec fn decoded(pair: JsonView) -> Result<BucketView, Fault> {
    match record_of(pair) {
        Some(record) => Ok(record),
        None => Err(Fault::Malformed),
    }
}

/// The records of one bucket, which is an array.
pub open spec fn bucket_records(bucket: JsonView) -> Result<Seq<BucketView>, Fault> {
    match bucket {
        JsonView::Array(pairs) => all_or_first_error(
            pairs.map_values(|pair: JsonView| decoded(pair)),
        ),
        _ => Err(Fault::Malformed),
    }
}

/// The records under one status code, which holds an object of buckets. Only status codes
/// that start with `5` count; anything else is passed over unread.
pub open spec fn status_records(status_code: Seq<char>, buckets: JsonView) -> Result<
    Seq<BucketView>,
    Fault,
> {
    if "5"@.is_prefix_of(status_code) {
        match buckets {
            JsonView::Object(members) => concat_or_first_error(
                members.map_values(|member: (Seq<char>, JsonView)| bucket_records(member.1)),
            ),
            _ => Err(Fault::Malformed),
        }
    } else {
        Ok(Seq::empty())
    }
}

/// The records of all server errors in a document of buckets, in the document's order.
pub open spec fn document_records(document: JsonView) -> Result<
    Seq<BucketView>,
    Fault,
> {
    match document {
        JsonView::Object(members) => concat_or_first_error(
            members.map_values(
                |member: (Seq<char>, JsonView)| status_records(member.0, member.1),
            ),
        ),
        _ => Err(Fault::Malformed),
    }
}

/// The records without repetitions: of records that are equal in every field, the first
/// stays.
pub open spec fn distinct(records: Seq<BucketView>) -> Seq<BucketView>
    decreases records.len(),
{
    if records.len() == 0 {
        Seq::empty()
    } else if distinct(records.drop_last()).contains(records.last()) {
        distinct(records.drop_last())
    } else {
        distinct(records.drop_last()).push(records.last())
    }
}

/// An entry for an endpoint at which `count` server errors were seen.
pub open spec fn entry(method: Seq<char>, path: Seq<char>, count: nat) -> EntryView {
    EntryView { method, path, failures: seq![(SERVER_ERROR@, count)] }
}

/// `at` is the first entry for the endpoint.
pub open spec fn is_entry_of(entries: Seq<EntryView>, method: Seq<char>, path: Seq<char>, at: int) -> bool {
    &&& 0 <= at < entries.len()
    &&& entries[at].method == method
    &&& entries[at].path == path
    &&& forall|earlier: int|
        0 <= earlier < at ==> !(#[trigger] entries[earlier].method == method
            && entries[earlier].path == path)
}

/// The number of server errors that an entry counts.
pub open spec fn count_of(entry: EntryView) -> nat {
    if entry.failures.len() > 0 {
        entry.failures[0].1
    } else {
        0
    }
}

/// The summary with one more server error at an endpoint: its entry counts one more, or a
/// new entry is added behind the others.
pub open spec fn counted(entries: Seq<EntryView>, method: Seq<char>, path: Seq<char>) -> Seq<
    EntryView,
> {
    if exists|at: int| is_entry_of(entries, method, path, at) {
        let at = choose|at: int| is_entry_of(entries, method, path, at);
        entries.update(at, entry(method, path, count_of(entries[at]) + 1))
    } else {
        entries.push(entry(method, path, 1))
    }
}

/// The summary of records by endpoint: one entry for each method and path, in the order in
/// which the endpoints first occur, with the number of records at that endpoint.
pub open spec fn summary(records: Seq<BucketView>) -> Seq<EntryView>
    decreases records.len(),
{
    if records.len() == 0 {
        Seq::empty()
    } else {
        counted(summary(records.drop_last()), records.last().method, records.last().path)
    }
}

/// The summary of the server errors in a document of buckets: every recorded request counts
/// once, however often the document holds it. `None` where the document holds no server
/// error.
pub open spec fn deduplicated(content: Seq<char>) -> Result<Option<Seq<EntryView>>, Fault> {
    match json_document(content) {
        Some(document) => match document_records(document) {
            Ok(records) => if records.len() == 0 {
                Ok(None)
            } else {
                Ok(Some(summary(distinct(records))))
            },
            Err(error) => Err(error),
        },
        None => Err(Fault::Json),
    }
}

/// The record that a member of a bucket stands for.
pub fn decode(pair: &Json) -> (record: Option<BucketData>)
    ensures
        record is Some == record_of(pair@) is Some,
        record matches Some(r) ==> record_of(pair@) == Some(r@),
{
    let request = pair.get("request")?;
    let response = pair.get("response")?;
    let sent = request.get("RequestData")?;
    let received = response.get("ResponseData")?;
    let method = sent.get_text("method")?;
    let path = sent.get_text("path")?;
    let query = sent.get_text("query")?;
    let body = sent.get_text("body")?;
    let code = match received.get("code")? {
        Json::Number(Some(code)) => if *code <= 65535 {
            *code as u16
        } else {
            return None;
        },
        _ => { return None; },
    };
    let content = received.get_text("content")?;
    Some(
        BucketData {
            method: method.to_owned(),
            path: path.to_owned(),
            query: query.to_owned(),
            body: body.to_owned(),
            code,
            content: content.to_owned(),
        },
    )
}

/// Whether two records are equal in every field.
pub fn same_record(left: &BucketData, right: &BucketData) -> (same: bool)
    ensures
        same == (left@ == right@),
{
    left.code == right.code && same_text(left.method.as_str(), right.method.as_str())
        && same_text(left.path.as_str(), right.path.as_str()) && same_text(
        left.query.as_str(),
        right.query.as_str(),
    ) && same_text(left.body.as_str(), right.body.as_str()) && same_text(
        left.content.as_str(),
        right.content.as_str(),
    )
}

/// The records of one bucket.
#[verifier::loop_isolation(false)]
pub fn read_bucket(bucket: &Json) -> (records: Result<Vec<BucketData>, ProcessingError>)
    ensures
        records is Ok == bucket_records(bucket@) is Ok,
        records matches Ok(found) ==> bucket_records(bucket@) == Ok::<
            Seq<BucketView>,
            Fault,
        >(record_views(found@)),
        records matches Err(error) ==> bucket_records(bucket@) == Err::<
            Seq<BucketView>,
            Fault,
        >(error.fault()),
{
    let pairs = match bucket.as_array() {
        Some(pairs) => pairs,
        None => { return Err(ProcessingError::Malformed); },
    };
    let ghost outcomes = item_views(pairs@).map_values(|pair: JsonView| decoded(pair));
    let mut records: Vec<BucketData> = Vec::new();
    let mut at: usize = 0;
    proof {
        lemma_all_or_first_error_start(outcomes);
        assert(record_views(records@) =~= Seq::empty());
    }
    while at < pairs.len()
        invariant
            at <= pairs.len(),
            all_or_first_error(outcomes.take(at as int)) == Ok::<Seq<BucketView>, Fault>(
                record_views(records@),
            ),
        decreases pairs.len() - at,
    {
        proof {
            lemma_all_or_first_error_step(outcomes, at as int);
        }
        let ghost before = record_views(records@);
        match decode(&pairs[at]) {
            Some(record) => {
                records.push(record);
                assert(record_views(records@) =~= before.push(record@));
            },
            None => {
                proof {
                    lemma_first_error_stays(outcomes, at + 1);
                }
                return Err(ProcessingError::Malformed);
            },
        }
        at = at + 1;
    }
    assert(outcomes.take(at as int) =~= outcomes);
    Ok(records)
}

/// The records under one status code.
#[verifier::loop_isolation(false)]
pub fn read_status(status_code: &str, buckets: &Json) -> (records: Result<
    Vec<BucketData>,
    ProcessingError,
>)
    ensures
        records is Ok == status_records(status_code@, buckets@) is Ok,
        records matches Ok(found) ==> status_records(status_code@, buckets@) == Ok::<
            Seq<BucketView>,
            Fault,
        >(record_views(found@)),
        records matches Err(error) ==> status_records(status_code@, buckets@) == Err::<
            Seq<BucketView>,
            Fault,
        >(error.fault()),
{
    let mut records: Vec<BucketData> = Vec::new();
    if !starts_with(status_code, "5") {
        assert(record_views(records@) =~= Seq::empty());
        return Ok(records);
    }
    let members = match buckets.as_object() {
        Some(members) => members,
        None => { return Err(ProcessingError::Malformed); },
    };
    let ghost outcomes = member_views(members@).map_values(
        |member: (Seq<char>, JsonView)| bucket_records(member.1),
    );
    let mut at: usize = 0;
    proof {
        lemma_concat_or_first_error_start(outcomes);
        assert(record_views(records@) =~= Seq::empty());
    }
    while at < members.len()
        invariant
            at <= members.len(),
            concat_or_first_error(outcomes.take(at as int)) == Ok::<
                Seq<BucketView>,
                Fault,
            >(record_views(records@)),
        decreases members.len() - at,
    {
        proof {
            lemma_concat_or_first_error_step(outcomes, at as int);
        }
        let ghost before = records@;
        match read_bucket(&members[at].1) {
            Ok(mut more) => {
                let ghost added = more@;
                records.append(&mut more);
                assert(record_views(records@) =~= record_views(before) + record_views(added));
            },
            Err(error) => {
                proof {
                    lemma_concat_first_error_stays(outcomes, at + 1);
                }
                return Err(error);
            },
        }
        at = at + 1;
    }
    assert(outcomes.take(at as int) =~= outcomes);
    Ok(records)
}

/// The records of all server errors in a document of buckets.
#[verifier::loop_isolation(false)]
pub fn read_document(document: &Json) -> (records: Result<Vec<BucketData>, ProcessingError>)
    ensures
        records is Ok == document_records(document@) is Ok,
        records matches Ok(found) ==> document_records(document@) == Ok::<
            Seq<BucketView>,
            Fault,
        >(record_views(found@)),
        records matches Err(error) ==> document_records(document@) == Err::<
            Seq<BucketView>,
            Fault,
        >(error.fault()),
{
    let members = match document.as_object() {
        Some(members) => members,
        None => { return Err(ProcessingError::Malformed); },
    };
    let ghost outcomes = member_views(members@).map_values(
        |member: (Seq<char>, JsonView)| status_records(member.0, member.1),
    );
    let mut records: Vec<BucketData> = Vec::new();
    let mut at: usize = 0;
    proof {
        lemma_concat_or_first_error_start(outcomes);
        assert(record_views(records@) =~= Seq::empty());
    }
    while at < members.len()
        invariant
            at <= members.len(),
            concat_or_first_error(outcomes.take(at as int)) == Ok::<
                Seq<BucketView>,
                Fault,
            >(record_views(records@)),
        decreases members.len() - at,
    {
        proof {
            lemma_concat_or_first_error_step(outcomes, at as int);
        }
        let ghost before = records@;
        match read_status(members[at].0.as_str(), &members[at].1) {
            Ok(mut more) => {
                let ghost added = more@;
                records.append(&mut more);
                assert(record_views(records@) =~= record_views(before) + record_views(added));
            },
            Err(error) => {
                proof {
                    lemma_concat_first_error_stays(outcomes, at + 1);
                }
                return Err(error);
            },
        }
        at = at + 1;
    }
    assert(outcomes.take(at as int) =~= outcomes);
    Ok(records)
}

/// Whether `records` holds a record equal to `record`.
pub fn holds(records: &Vec<BucketData>, record: &BucketData) -> (yes: bool)
    ensures
        yes == record_views(records@).contains(record@),
{
    let mut at: usize = 0;
    while at < records.len()
        invariant
            at <= records.len(),
            forall|i: int| 0 <= i < at ==> record_views(records@)[i] != record@,
        decreases records.len() - at,
    {
        if same_record(&records[at], record) {
            assert(record_views(records@)[at as int] == record@);
            return true;
        }
        at = at + 1;
    }
    false
}

/// The records without repetitions, the first of equal records in its place.
pub fn deduplicate(records: Vec<BucketData>) -> (kept: Vec<BucketData>)
    ensures
        record_views(kept@) == distinct(record_views(records@)),
{
    let ghost all = record_views(records@);
    let mut kept: Vec<BucketData> = Vec::new();
    let mut rest = records;
    let mut at: usize = 0;
    let total = rest.len();
    proof {
        assert(all.take(0) =~= Seq::empty());
        assert(record_views(kept@) =~= Seq::empty());
    }
    // Walks the records from the front; each one is cloned out of its place.
    while at < total
        invariant
            at <= total,
            total == rest.len(),
            all == record_views(rest@),
            record_views(kept@) == distinct(all.take(at as int)),
        decreases total - at,
    {
        proof {
            assert(all.take(at + 1).drop_last() =~= all.take(at as int));
            assert(all.take(at + 1).last() == rest@[at as int]@);
        }
        let ghost before = record_views(kept@);
        if !holds(&kept, &rest[at]) {
            let record = copy_of(&rest[at]);
            kept.push(record);
            assert(record_views(kept@) =~= before.push(record@));
        }
        at = at + 1;
    }
    assert(all.take(at as int) =~= all);
    kept
}

/// A copy of a record.
pub fn copy_of(record: &BucketData) -> (copy: BucketData)
    ensures
        copy@ == record@,
{
    BucketData {
        method: record.method.clone(),
        path: record.path.clone(),
        query: record.query.clone(),
        body: record.body.clone(),
        code: record.code,
        content: record.content.clone(),
    }
}

/// Every entry counts server errors only, at least one and at most `bound`.
pub open spec fn counts_within(entries: Seq<EntryView>, bound: nat) -> bool {
    forall|i: int|
        0 <= i < entries.len() ==> (#[trigger] entries[i]).failures.len() == 1
            && entries[i].failures[0].0 == SERVER_ERROR@ && 1 <= entries[i].failures[0].1 <= bound
}

/// The summary of records counts no endpoint more often than there are records.
pub proof fn lemma_summary_counts(records: Seq<BucketView>)
    ensures
        counts_within(summary(records), records.len()),
        summary(records).len() <= records.len(),
    decreases records.len(),
{
    if records.len() > 0 {
        let before = summary(records.drop_last());
        let method = records.last().method;
        let path = records.last().path;
        lemma_summary_counts(records.drop_last());
        if exists|at: int| is_entry_of(before, method, path, at) {
            let at = choose|at: int| is_entry_of(before, method, path, at);
            assert(counts_within(before.update(at, entry(method, path, count_of(before[at]) + 1)), records.len()));
        } else {
            assert(counts_within(before.push(entry(method, path, 1)), records.len()));
        }
    }
}

/// The first entry for an endpoint.
pub fn find_entry(entries: &Vec<DedupFailureEntry>, method: &str, path: &str) -> (found: Option<
    usize,
>)
    ensures
        found is Some == exists|at: int| is_entry_of(entry_views(entries@), method@, path@, at),
        found matches Some(at) ==> is_entry_of(entry_views(entries@), method@, path@, at as int),
{
    let mut at: usize = 0;
    while at < entries.len()
        invariant
            at <= entries.len(),
            forall|earlier: int|
                0 <= earlier < at ==> !(#[trigger] entry_views(entries@)[earlier].method == method@
                    && entry_views(entries@)[earlier].path == path@),
        decreases entries.len() - at,
    {
        if same_text(entries[at].method.as_str(), method) && same_text(
            entries[at].path.as_str(),
            path,
        ) {
            assert(is_entry_of(entry_views(entries@), method@, path@, at as int));
            return Some(at);
        }
        at = at + 1;
    }
    assert forall|i: int| !is_entry_of(entry_views(entries@), method@, path@, i) by {
        if 0 <= i < entries.len() {
            assert(!(entry_views(entries@)[i].method == method@ && entry_views(entries@)[i].path
                == path@));
        }
    }
    None
}

/// A new entry.
pub fn new_entry(method: &str, path: &str, count: usize) -> (made: DedupFailureEntry)
    ensures
        made@ == entry(method@, path@, count as nat),
{
    let mut failures: Vec<(String, usize)> = Vec::new();
    failures.push((SERVER_ERROR.to_owned(), count));
    let made = DedupFailureEntry { method: method.to_owned(), path: path.to_owned(), failures };
    assert(made@.failures =~= seq![(SERVER_ERROR@, count as nat)]);
    made
}

/// The summary of records by endpoint.
pub fn summarize(records: &Vec<BucketData>) -> (entries: Vec<DedupFailureEntry>)
    ensures
        entry_views(entries@) == summary(record_views(records@)),
{
    let ghost all = record_views(records@);
    let mut entries: Vec<DedupFailureEntry> = Vec::new();
    let mut at: usize = 0;
    proof {
        assert(all.take(0) =~= Seq::empty());
        assert(entry_views(entries@) =~= Seq::empty());
    }
    while at < records.len()
        invariant
            at <= records.len(),
            all == record_views(records@),
            entry_views(entries@) == summary(all.take(at as int)),
        decreases records.len() - at,
    {
        proof {
            assert(all.take(at + 1).drop_last() =~= all.take(at as int));
            assert(all.take(at + 1).last() == records@[at as int]@);
            lemma_summary_counts(all.take(at as int));
        }
        let ghost before = entry_views(entries@);
        let method = records[at].method.as_str();
        let path = records[at].path.as_str();
        match find_entry(&entries, method, path) {
            Some(index) => {
                proof {
                    let chosen = choose|i: int| is_entry_of(before, method@, path@, i);
                    assert(is_entry_of(before, method@, path@, chosen));
                    assert(chosen == index) by {
                        if chosen < index {
                            assert(!(before[chosen].method == method@ && before[chosen].path
                                == path@));
                        } else if index < chosen {
                            assert(!(before[index as int].method == method@
                                && before[index as int].path == path@));
                        }
                    }
                    assert(before[index as int] == entries@[index as int]@);
                    assert(entries@[index as int]@.failures.len() == 1);
                }
                let count = entries[index].failures[0].1;
                assert(count as nat == count_of(before[index as int]));
                let made = new_entry(method, path, count + 1);
                entries.set(index, made);
                assert(entry_views(entries@) =~= before.update(index as int, made@));
            },
            None => {
                let made = new_entry(method, path, 1);
                entries.push(made);
                assert(entry_views(entries@) =~= before.push(made@));
            },
        }
        at = at + 1;
    }
    assert(all.take(at as int) =~= all);
    entries
}

/// The summary of the server errors in a document of buckets, given as JSON text.
pub fn get_deduplicated_results(content: &str) -> (entries: Result<
    Option<Vec<DedupFailureEntry>>,
    ProcessingError,
>)
    ensures
        entries is Ok == deduplicated(content@) is Ok,
        entries matches Err(error) ==> deduplicated(content@) == Err::<
            Option<Seq<EntryView>>,
            Fault,
        >(error.fault()),
        entries matches Ok(None) ==> deduplicated(content@) == Ok::<
            Option<Seq<EntryView>>,
            Fault,
        >(None),
        entries matches Ok(Some(found)) ==> deduplicated(content@) == Ok::<
            Option<Seq<EntryView>>,
            Fault,
        >(Some(entry_views(found@))),
{
    let document = read(content)?;
    let records = read_document(&document)?;
    if records.len() == 0 {
        return Ok(None);
    }
    let kept = deduplicate(records);
    Ok(Some(summarize(&kept)))
}

/// Deduplication keeps every record once: nothing occurs twice in the result, and the
/// result holds exactly the records that were given.
pub proof fn lemma_distinct_keeps_each_once(records: Seq<BucketView>)
    ensures
        distinct(records).no_duplicates(),
        forall|record: BucketView|
            #[trigger] distinct(records).contains(record) <==> records.contains(record),
    decreases records.len(),
{
    if records.len() > 0 {
        let before = records.drop_last();
        let last = records.last();
        lemma_distinct_keeps_each_once(before);
        assert forall|record: BucketView| #[trigger]
            distinct(records).contains(record) <==> records.contains(record) by {
            assert(distinct(before).contains(record) <==> before.contains(record));
            if records.contains(record) && record != last {
                let i = choose|i: int| 0 <= i < records.len() && records[i] == record;
                assert(before[i] == record);
                let j = choose|j: int|
                    0 <= j < distinct(before).len() && distinct(before)[j] == record;
                if !distinct(before).contains(last) {
                    assert(distinct(before).push(last)[j] == record);
                }
            }
            if record == last {
                assert(records[records.len() - 1] == record);
                if !distinct(before).contains(last) {
                    assert(distinct(before).push(last)[distinct(before).len() as int] == last);
                }
            }
            if distinct(records).contains(record) && record != last {
                let j = choose|j: int|
                    0 <= j < distinct(records).len() && distinct(records)[j] == record;
                assert(distinct(before)[j] == record);
                let i = choose|i: int| 0 <= i < before.len() && before[i] == record;
                assert(records[i] == record);
            }
        }
    }
}

/// How many of the records were made at an endpoint.
pub open spec fn records_at(records: Seq<BucketView>, method: Seq<char>, path: Seq<char>) -> nat
    decreases records.len(),
{
    if records.len() == 0 {
        0
    } else if records.last().method == method && records.last().path == path {
        records_at(records.drop_last(), method, path) + 1
    } else {
        records_at(records.drop_last(), method, path)
    }
}

/// What an entry counts for an endpoint: its count where it is the endpoint's, else nothing.
pub open spec fn counted_for(entry: EntryView, method: Seq<char>, path: Seq<char>) -> nat {
    if entry.method == method && entry.path == path {
        count_of(entry)
    } else {
        0
    }
}

/// How many server errors a summary counts at an endpoint, over all its entries.
pub open spec fn total_at(entries: Seq<EntryView>, method: Seq<char>, path: Seq<char>) -> nat
    decreases entries.len(),
{
    if entries.len() == 0 {
        0
    } else {
        total_at(entries.drop_last(), method, path) + counted_for(entries.last(), method, path)
    }
}

/// Replacing one entry changes the total at an endpoint by what the two entries count for it.
proof fn lemma_total_after_update(
    entries: Seq<EntryView>,
    at: int,
    replacement: EntryView,
    method: Seq<char>,
    path: Seq<char>,
)
    requires
        0 <= at < entries.len(),
    ensures
        total_at(entries.update(at, replacement), method, path) + counted_for(
            entries[at],
            method,
            path,
        ) == total_at(entries, method, path) + counted_for(replacement, method, path),
    decreases entries.len(),
{
    let updated = entries.update(at, replacement);
    if at == entries.len() - 1 {
        assert(updated.drop_last() =~= entries.drop_last());
    } else {
        assert(updated.drop_last() =~= entries.drop_last().update(at, replacement));
        lemma_total_after_update(entries.drop_last(), at, replacement, method, path);
    }
}

/// The summary counts at every endpoint exactly the records that were made there.
pub proof fn lemma_summary_counts_every_record(
    records: Seq<BucketView>,
    method: Seq<char>,
    path: Seq<char>,
)
    ensures
        total_at(summary(records), method, path) == records_at(records, method, path),
    decreases records.len(),
{
    if records.len() > 0 {
        let before = summary(records.drop_last());
        let last = records.last();
        lemma_summary_counts_every_record(records.drop_last(), method, path);
        if exists|at: int| is_entry_of(before, last.method, last.path, at) {
            let at = choose|at: int| is_entry_of(before, last.method, last.path, at);
            lemma_total_after_update(
                before,
                at,
                entry(last.method, last.path, count_of(before[at]) + 1),
                method,
                path,
            );
        } else {
            assert(before.push(entry(last.method, last.path, 1)).drop_last() =~= before);
        }
    }
}

/// The summary has one entry for each endpoint: no two entries share method and path.
pub proof fn lemma_summary_one_entry_per_endpoint(records: Seq<BucketView>)
    ensures
        forall|i: int, j: int|
            0 <= i < j < summary(records).len() ==> !(#[trigger] summary(records)[i].method
                == #[trigger] summary(records)[j].method && summary(records)[i].path == summary(
                records,
            )[j].path),
    decreases records.len(),
{
    if records.len() > 0 {
        let before = summary(records.drop_last());
        let last = records.last();
        lemma_summary_one_entry_per_endpoint(records.drop_last());
        if exists|at: int| is_entry_of(before, last.method, last.path, at) {
            let at = choose|at: int| is_entry_of(before, last.method, last.path, at);
            let after = before.update(at, entry(last.method, last.path, count_of(before[at]) + 1));
            assert forall|i: int, j: int| 0 <= i < j < after.len() implies !(#[trigger] after[i].method
                == #[trigger] after[j].method && after[i].path == after[j].path) by {
                assert(after[i].method == before[i].method && after[i].path == before[i].path);
                assert(after[j].method == before[j].method && after[j].path == before[j].path);
            }
        } else {
            let after = before.push(entry(last.method, last.path, 1));
            assert forall|i: int, j: int| 0 <= i < j < after.len() implies !(#[trigger] after[i].method
                == #[trigger] after[j].method && after[i].path == after[j].path) by {
                if j == before.len() {
                    if after[i].method == last.method && after[i].path == last.path {
                        lemma_first_entry_exists(before, last.method, last.path, i);
                    }
                } else {
                    assert(after[i] == before[i] && after[j] == before[j]);
                }
            }
        }
    }
}

/// Where some entry is an endpoint's, there is a first one.
proof fn lemma_first_entry_exists(
    entries: Seq<EntryView>,
    method: Seq<char>,
    path: Seq<char>,
    some: int,
)
    requires
        0 <= some < entries.len(),
        entries[some].method == method,
        entries[some].path == path,
    ensures
        exists|at: int| is_entry_of(entries, method, path, at),
    decreases some,
{
    if exists|earlier: int|
        0 <= earlier < some && entries[earlier].method == method && entries[earlier].path == path {
        let earlier = choose|earlier: int|
            0 <= earlier < some && entries[earlier].method == method && entries[earlier].path
                == path;
        lemma_first_entry_exists(entries, method, path, earlier);
    } else {
        assert(is_entry_of(entries, method, path, some));
    }
}

} // verus!
