//! The recent messages of the session log that was written last.
use vstd::prelude::*;
use vstd::utf8::encode_utf8;
use crate::json::{document, member, parse, text_member, text_of, Json};
use crate::text::{
    law_lines_append, lines, optional, owned, same_text, split_lines, texts, whole_lines,
};

verus! {

/// How many of a log's records are looked at.
pub const RECENT: usize = 30;

/// A file in a project's directory, as far as the choice of the session log reads it.
pub struct SessionFile {
    /// The extension of the file's name.
    pub extension: Option<String>,
    /// When the file was last written, in nanoseconds since the Unix epoch; `None` where the
    /// file system does not say.
    pub modified: Option<i128>,
}

impl SessionFile {
    /// When the log was written, where this is a log and was written after the epoch.
    pub open spec fn stamp(self) -> Option<int> {
        match (self.extension, self.modified) {
            (Some(e), Some(t)) if e@ == "jsonl"@ && t > 0 => Some(t as int),
            _ => None,
        }
    }
}

/// Whether the file at `i` is the newest log, and the first among those equally new.
pub open spec fn is_newest(files: Seq<SessionFile>, i: int) -> bool {
    &&& 0 <= i < files.len()
    &&& files[i].stamp() is Some
    &&& forall|j: int|
        0 <= j < files.len() && (#[trigger] files[j].stamp()) is Some ==> files[j].stamp()->0
            <= files[i].stamp()->0 && (j < i ==> files[j].stamp()->0 < files[i].stamp()->0)
}

fn log_stamp(file: &SessionFile) -> (r: Option<i128>)
    ensures
        match r {
            Some(t) => file.stamp() == Some(t as int),
            None => file.stamp() is None,
        },
{
    match (&file.extension, &file.modified) {
        (Some(e), Some(t)) => if same_text(e.as_str(), "jsonl") && *t > 0 {
            Some(*t)
        } else {
            None
        },
        _ => None,
    }
}

/// Chooses the newest log among the files, by its position.
pub fn newest_session(files: &Vec<SessionFile>) -> (r: Option<usize>)
    ensures
        match r {
            Some(i) => is_newest(files@, i as int),
            None => forall|j: int| 0 <= j < files@.len() ==> (#[trigger] files@[j].stamp()) is None,
        },
{
    let mut newest_time: i128 = 0;
    let mut newest: Option<usize> = None;
    let mut k: usize = 0;
    while k < files.len()
        invariant
            k <= files@.len(),
            newest_time >= 0,
            forall|j: int|
                0 <= j < k && (#[trigger] files@[j].stamp()) is Some ==> files@[j].stamp()->0
                    <= newest_time,
            match newest {
                Some(i) => {
                    &&& i < k
                    &&& files@[i as int].stamp() == Some(newest_time as int)
                    &&& forall|j: int|
                        0 <= j < i && (#[trigger] files@[j].stamp()) is Some ==> files@[j].stamp()->0
                            < newest_time
                },
                None => newest_time == 0,
            },
        decreases files@.len() - k,
    {
        if let Some(t) = log_stamp(&files[k]) {
            if t > newest_time {
                newest_time = t;
                newest = Some(k);
            }
        }
        k = k + 1;
    }
    newest
}

/// A record of a session log, as far as it is shown.
pub struct SessionRecord {
    /// The record's `type`.
    pub kind: Option<String>,
    /// The `content` of the record's `message`.
    pub content: Option<String>,
}

/// What a record holds.
pub struct RecordModel {
    pub kind: Option<Seq<char>>,
    pub content: Option<Seq<char>>,
}

impl View for SessionRecord {
    type V = RecordModel;

    open spec fn view(&self) -> RecordModel {
        RecordModel { kind: optional(self.kind), content: optional(self.content) }
    }
}

/// One message of a session, as it is shown.
pub struct SessionMessage {
    /// Who speaks: `user` or `assistant`.
    pub role: String,
    pub content: String,
}

/// What a message holds.
pub struct MessageModel {
    pub role: Seq<char>,
    pub content: Seq<char>,
}

impl View for SessionMessage {
    type V = MessageModel;

    open spec fn view(&self) -> MessageModel {
        MessageModel { role: self.role@, content: self.content@ }
    }
}

/// Who speaks in a record of the given type.
pub open spec fn role(kind: Option<Seq<char>>) -> Seq<char> {
    if kind == Some("user"@) {
        "user"@
    } else if kind == Some("assistant"@) {
        "assistant"@
    } else {
        "tool"@
    }
}

/// The text that a record shows: its content where the user or the assistant speaks, nothing
/// otherwise.
pub open spec fn shown_text(record: RecordModel) -> Seq<char> {
    if role(record.kind) == "user"@ || role(record.kind) == "assistant"@ {
        match record.content {
            Some(s) => s,
            None => Seq::empty(),
        }
    } else {
        Seq::empty()
    }
}

/// The message that a record shows: one whose text takes more than one byte.
pub open spec fn shown(record: RecordModel) -> Option<MessageModel> {
    if encode_utf8(shown_text(record)).len() > 1 {
        Some(MessageModel { role: role(record.kind), content: shown_text(record) })
    } else {
        None
    }
}

/// The messages that records show, in their order.
pub open spec fn all_shown(records: Seq<RecordModel>) -> Seq<MessageModel>
    decreases records.len(),
{
    if records.len() == 0 {
        Seq::empty()
    } else {
        match shown(records.last()) {
            Some(m) => all_shown(records.drop_last()).push(m),
            None => all_shown(records.drop_last()),
        }
    }
}

/// The last `RECENT` records, or all where there are fewer.
pub open spec fn last_records(records: Seq<RecordModel>) -> Seq<RecordModel> {
    if records.len() > RECENT {
        records.skip(records.len() - RECENT)
    } else {
        records
    }
}

/// The messages among the last records of a log.
pub open spec fn recent(records: Seq<RecordModel>) -> Seq<MessageModel> {
    all_shown(last_records(records))
}

/// What each record holds.
pub open spec fn records_view(v: Seq<SessionRecord>) -> Seq<RecordModel> {
    v.map_values(|r: SessionRecord| r@)
}

/// What each message holds.
pub open spec fn messages_view(v: Seq<SessionMessage>) -> Seq<MessageModel> {
    v.map_values(|m: SessionMessage| m@)
}

/// Tells who speaks in a record of the given type.
pub fn role_of(kind: &Option<String>) -> (r: &'static str)
    ensures
        r@ == role(optional(*kind)),
{
    match kind {
        Some(k) => if same_text(k.as_str(), "user") {
            "user"
        } else if same_text(k.as_str(), "assistant") {
            "assistant"
        } else {
            "tool"
        },
        None => "tool",
    }
}

/// Tells what message a record shows.
pub fn shown_message(record: &SessionRecord) -> (r: Option<SessionMessage>)
    ensures
        match r {
            Some(m) => shown(record@) == Some(m@),
            None => shown(record@) is None,
        },
{
    let role = role_of(&record.kind);
    let text: &str = if same_text(role, "user") || same_text(role, "assistant") {
        match &record.content {
            Some(s) => s.as_str(),
            None => "",
        }
    } else {
        ""
    };
    proof {
        reveal_strlit("");
        assert(""@ =~= Seq::<char>::empty());
        assert(text@ == shown_text(record@));
    }
    if text.as_bytes().len() > 1 {
        Some(SessionMessage { role: role.to_owned(), content: text.to_owned() })
    } else {
        None
    }
}

/// Picks the messages out of the last records of a log.
pub fn recent_messages(records: &Vec<SessionRecord>) -> (r: Vec<SessionMessage>)
    ensures
        messages_view(r@) == recent(records_view(records@)),
{
    let start: usize = if records.len() > RECENT {
        records.len() - RECENT
    } else {
        0
    };
    let ghost all = records_view(records@);
    let ghost tail = all.skip(start as int);
    let mut out: Vec<SessionMessage> = Vec::new();
    let mut k: usize = start;
    proof {
        assert(tail =~= last_records(all));
        assert(messages_view(out@) =~= all_shown(tail.take(0)));
    }
    while k < records.len()
        invariant
            start <= k <= records@.len(),
            all == records_view(records@),
            tail == all.skip(start as int),
            messages_view(out@) == all_shown(tail.take(k - start)),
        decreases records@.len() - k,
    {
        let ghost done = out@;
        proof {
            let next = tail.take(k - start + 1);
            assert(next.drop_last() =~= tail.take(k - start));
            assert(next.last() == records@[k as int]@);
        }
        if let Some(m) = shown_message(&records[k]) {
            out.push(m);
            proof {
                assert(messages_view(out@) =~= messages_view(done).push(m@));
            }
        }
        k = k + 1;
    }
    proof {
        assert(tail.take(tail.len() as int) =~= tail);
    }
    out
}

/// The record that a document spells.
pub open spec fn record_of(doc: Json) -> RecordModel {
    RecordModel {
        kind: text_member(doc, "type"@),
        content: match doc.member("message"@) {
            Some(m) => text_member(m, "content"@),
            None => None,
        },
    }
}

/// The records of a log's lines. A line that is not JSON holds none.
pub open spec fn records_of(lines: Seq<Seq<char>>) -> Seq<RecordModel>
    decreases lines.len(),
{
    if lines.len() == 0 {
        Seq::empty()
    } else {
        match document(lines.last()) {
            Some(doc) => records_of(lines.drop_last()).push(record_of(doc)),
            None => records_of(lines.drop_last()),
        }
    }
}

/// Reads one line of a log.
pub fn read_record(line: &str) -> (r: Option<SessionRecord>)
    ensures
        match (r, document(line@)) {
            (Some(record), Some(doc)) => record@ == record_of(doc),
            (None, None) => true,
            _ => false,
        },
{
    match parse(line) {
        Ok(value) => {
            let kind = owned(text_of(&value, "type"));
            let content = match member(&value, "message") {
                Some(message) => owned(text_of(message, "content")),
                None => None,
            };
            Some(SessionRecord { kind, content })
        },
        Err(_) => None,
    }
}

/// Reads the records of a log.
pub fn read_records(log: &str) -> (r: Vec<SessionRecord>)
    ensures
        records_view(r@) == records_of(lines(log@)),
{
    let all = split_lines(log);
    let mut out: Vec<SessionRecord> = Vec::new();
    let mut k: usize = 0;
    proof {
        assert(records_view(out@) =~= records_of(texts(all@).take(0)));
    }
    while k < all.len()
        invariant
            k <= all@.len(),
            texts(all@) == lines(log@),
            records_view(out@) == records_of(texts(all@).take(k as int)),
        decreases all@.len() - k,
    {
        let ghost done = out@;
        proof {
            let next = texts(all@).take(k + 1);
            assert(next.drop_last() =~= texts(all@).take(k as int));
            assert(next.last() == all@[k as int]@);
        }
        if let Some(record) = read_record(all[k].as_str()) {
            out.push(record);
            proof {
                assert(records_view(out@) =~= records_view(done).push(record@));
            }
        }
        k = k + 1;
    }
    proof {
        assert(texts(all@).take(all@.len() as int) =~= texts(all@));
    }
    out
}

/// The messages to show for a log; none where no log could be read.
pub fn handle_session_messages(log: Option<&str>) -> (r: Vec<SessionMessage>)
    ensures
        messages_view(r@) == match log {
            Some(text) => recent(records_of(lines(text@))),
            None => Seq::empty(),
        },
{
    match log {
        Some(text) => recent_messages(&read_records(text)),
        None => {
            let none: Vec<SessionMessage> = Vec::new();
            assert(messages_view(none@) =~= Seq::<MessageModel>::empty());
            none
        },
    }
}

/// No more than `RECENT` messages are shown.
pub proof fn law_at_most_recent(records: Seq<RecordModel>)
    ensures
        recent(records).len() <= RECENT,
{
    lemma_all_shown_len(last_records(records));
}

proof fn lemma_all_shown_len(records: Seq<RecordModel>)
    ensures
        all_shown(records).len() <= records.len(),
    decreases records.len(),
{
    if records.len() > 0 {
        lemma_all_shown_len(records.drop_last());
    }
}

/// Every message that is shown comes from one of the last records, is spoken by the user or the
/// assistant, and has a text of more than one byte.
pub proof fn law_shown_messages(records: Seq<RecordModel>, i: int)
    requires
        0 <= i < recent(records).len(),
    ensures
        ({
            let m = recent(records)[i];
            &&& m.role == "user"@ || m.role == "assistant"@
            &&& encode_utf8(m.content).len() > 1
            &&& exists|k: int|
                0 <= k < last_records(records).len() && #[trigger] shown(last_records(records)[k])
                    == Some(m)
        }),
{
    lemma_shown_source(last_records(records), i);
    let k = choose|k: int|
        0 <= k < last_records(records).len() && #[trigger] shown(last_records(records)[k]) == Some(
            recent(records)[i],
        );
    let record = last_records(records)[k];
    if role(record.kind) != "user"@ && role(record.kind) != "assistant"@ {
        assert(encode_utf8(Seq::<char>::empty()).len() == 0);
    }
}

proof fn lemma_shown_source(records: Seq<RecordModel>, i: int)
    requires
        0 <= i < all_shown(records).len(),
    ensures
        exists|k: int|
            0 <= k < records.len() && #[trigger] shown(records[k]) == Some(all_shown(records)[i]),
    decreases records.len(),
{
    let before = records.drop_last();
    if i < all_shown(before).len() {
        lemma_shown_source(before, i);
        let k = choose|k: int|
            0 <= k < before.len() && #[trigger] shown(before[k]) == Some(all_shown(before)[i]);
        assert(shown(records[k]) == Some(all_shown(records)[i]));
    } else {
        assert(shown(records[records.len() - 1]) == Some(all_shown(records)[i]));
    }
}

/// Messages are shown in the order of their records.
pub proof fn law_shown_in_order(a: Seq<RecordModel>, b: Seq<RecordModel>)
    ensures
        all_shown(a + b) == all_shown(a) + all_shown(b),
    decreases b.len(),
{
    if b.len() == 0 {
        assert(a + b =~= a);
        assert(all_shown(a) + all_shown(b) =~= all_shown(a));
    } else {
        law_shown_in_order(a, b.drop_last());
        assert((a + b).drop_last() =~= a + b.drop_last());
        assert((a + b).last() == b.last());
        assert(all_shown(a + b) =~= all_shown(a) + all_shown(b));
    }
}

/// Records before the last `RECENT` ones make no difference.
pub proof fn law_older_records_forgotten(older: Seq<RecordModel>, newer: Seq<RecordModel>)
    requires
        newer.len() >= RECENT,
    ensures
        recent(older + newer) == recent(newer),
{
    assert(last_records(older + newer) =~= last_records(newer));
}

/// A line that is not JSON makes no difference, wherever it stands.
pub proof fn law_unreadable_line_ignored(
    before: Seq<Seq<char>>,
    line: Seq<char>,
    after: Seq<Seq<char>>,
)
    requires
        document(line) is None,
    ensures
        records_of(before + seq![line] + after) == records_of(before + after),
    decreases after.len(),
{
    let with = before + seq![line] + after;
    let without = before + after;
    if after.len() == 0 {
        assert(with.drop_last() =~= before);
        assert(without =~= before);
    } else {
        law_unreadable_line_ignored(before, line, after.drop_last());
        assert(with.drop_last() =~= before + seq![line] + after.drop_last());
        assert(without.drop_last() =~= before + after.drop_last());
        assert(with.last() == without.last());
    }
}

/// Lines are read one by one: more lines add their records behind those before.
pub proof fn law_records_append(before: Seq<Seq<char>>, after: Seq<Seq<char>>)
    ensures
        records_of(before + after) == records_of(before) + records_of(after),
    decreases after.len(),
{
    if after.len() == 0 {
        assert(before + after =~= before);
        assert(records_of(before) + records_of(after) =~= records_of(before));
    } else {
        law_records_append(before, after.drop_last());
        assert((before + after).drop_last() =~= before + after.drop_last());
        assert((before + after).last() == after.last());
        assert(records_of(before + after) =~= records_of(before) + records_of(after));
    }
}

/// A log grows at its end: what is written behind whole lines adds its records.
pub proof fn law_log_append(before: Seq<char>, after: Seq<char>)
    requires
        whole_lines(before),
    ensures
        records_of(lines(before + after)) == records_of(lines(before)) + records_of(lines(after)),
{
    law_lines_append(before, after);
    law_records_append(lines(before), lines(after));
}

/// What a log held before its last `RECENT` records makes no difference to what is shown.
pub proof fn law_older_log_forgotten(older: Seq<char>, newer: Seq<char>)
    requires
        whole_lines(older),
        records_of(lines(newer)).len() >= RECENT,
    ensures
        recent(records_of(lines(older + newer))) == recent(records_of(lines(newer))),
{
    law_log_append(older, newer);
    law_older_records_forgotten(records_of(lines(older)), records_of(lines(newer)));
}

/// A part of a log that holds no record makes no difference, wherever it stands.
pub proof fn law_unreadable_part_ignored(before: Seq<char>, part: Seq<char>, after: Seq<char>)
    requires
        whole_lines(before),
        whole_lines(part),
        forall|i: int| 0 <= i < lines(part).len() ==> document(#[trigger] lines(part)[i]) is None,
    ensures
        records_of(lines(before + part + after)) == records_of(lines(before + after)),
{
    lemma_no_records(lines(part));
    assert(before + part + after =~= before + (part + after));
    law_log_append(before, part + after);
    law_log_append(part, after);
    law_log_append(before, after);
    assert(records_of(lines(part)) + records_of(lines(after)) =~= records_of(lines(after)));
}

proof fn lemma_no_records(lines: Seq<Seq<char>>)
    requires
        forall|i: int| 0 <= i < lines.len() ==> document(#[trigger] lines[i]) is None,
    ensures
        records_of(lines).len() == 0,
    decreases lines.len(),
{
    if lines.len() > 0 {
        assert(document(lines[lines.len() - 1]) is None);
        lemma_no_records(lines.drop_last());
    }
}

/// No two files can both be the newest log.
pub proof fn law_newest_is_one(files: Seq<SessionFile>, i: int, j: int)
    requires
        is_newest(files, i),
        is_newest(files, j),
    ensures
        i == j,
{
    assert(files[i].stamp() is Some && files[j].stamp() is Some);
}

/// A file is a log by its extension, and counts with the time it was written, after the epoch.
pub proof fn law_stamp(file: SessionFile, t: int)
    ensures
        file.stamp() == Some(t) <==> file.extension is Some && file.extension->0@ == "jsonl"@
            && file.modified is Some && file.modified->0 == t && t > 0,
{
}

/// The newest log is a log. No log is newer, and none before it is as new.
pub proof fn law_newest(files: Seq<SessionFile>, i: int, j: int)
    requires
        is_newest(files, i),
    ensures
        0 <= i < files.len(),
        files[i].extension is Some && files[i].extension->0@ == "jsonl"@,
        files[i].modified is Some && files[i].modified->0 > 0,
        0 <= j < files.len() && files[j].extension is Some && files[j].extension->0@ == "jsonl"@
            && files[j].modified is Some ==> {
            &&& files[j].modified->0 <= files[i].modified->0
            &&& j < i ==> files[j].modified->0 < files[i].modified->0
        },
{
    assert(files[j].stamp() is Some || files[j].stamp() is None);
}

/// Records and messages are told field by field, in their places.
pub proof fn law_session_views(
    record: SessionRecord,
    message: SessionMessage,
    records: Seq<SessionRecord>,
    messages: Seq<SessionMessage>,
)
    ensures
        record@.kind == optional(record.kind),
        record@.content == optional(record.content),
        message@.role == message.role@,
        message@.content == message.content@,
        records_view(records).len() == records.len(),
        forall|i: int| 0 <= i < records.len() ==> #[trigger] records_view(records)[i] == records[i]@,
        messages_view(messages).len() == messages.len(),
        forall|i: int|
            0 <= i < messages.len() ==> #[trigger] messages_view(messages)[i] == messages[i]@,
{
}

/// The user and the assistant speak in the records of their type, and nobody else does.
pub proof fn law_role(kind: Option<Seq<char>>)
    ensures
        role(kind) == "user"@ <==> kind == Some("user"@),
        role(kind) == "assistant"@ <==> kind == Some("assistant"@),
        kind != Some("user"@) && kind != Some("assistant"@) ==> role(kind) == "tool"@,
{
    reveal_strlit("user");
    reveal_strlit("assistant");
    reveal_strlit("tool");
    assert("user"@.len() == 4 && "assistant"@.len() == 9 && "tool"@.len() == 4);
    assert("user"@[0] != "tool"@[0]);
}

/// A record shows a message where the user or the assistant speaks, the content is there and takes
/// more than one byte; the message is then that content, by that speaker.
pub proof fn law_shown(record: RecordModel, message: MessageModel)
    ensures
        shown(record) == Some(message) <==> {
            &&& record.kind == Some("user"@) || record.kind == Some("assistant"@)
            &&& record.content == Some(message.content)
            &&& record.kind == Some(message.role)
            &&& encode_utf8(message.content).len() > 1
        },
{
    law_role(record.kind);
    assert(encode_utf8(Seq::<char>::empty()).len() == 0);
}

/// One record shows its message, or nothing.
pub proof fn law_one_shown(record: RecordModel)
    ensures
        all_shown(Seq::empty()) == Seq::<MessageModel>::empty(),
        shown(record) is Some ==> all_shown(seq![record]) == seq![shown(record)->0],
        shown(record) is None ==> all_shown(seq![record]) == Seq::<MessageModel>::empty(),
{
    reveal_with_fuel(all_shown, 2);
    assert(seq![record].drop_last() =~= Seq::<RecordModel>::empty());
    assert(Seq::<MessageModel>::empty().push(shown(record)->0) =~= seq![shown(record)->0]);
}

/// The records that count are the end of the log: all of it up to thirty, and thirty of more.
pub proof fn law_last_records(records: Seq<RecordModel>)
    ensures
        last_records(records).len() == if records.len() <= 30 {
            records.len() as int
        } else {
            30
        },
        exists|older: Seq<RecordModel>| records == #[trigger] (older + last_records(records)),
{
    let n = records.len() - last_records(records).len();
    assert(records =~= records.take(n) + last_records(records));
}

/// Nothing is left out of a short log, and of a long one all that its last thirty records show is
/// shown.
pub proof fn law_recent(older: Seq<RecordModel>, records: Seq<RecordModel>)
    ensures
        records.len() <= 30 ==> recent(records) == all_shown(records),
        records.len() == 30 ==> recent(older + records) == all_shown(records),
{
    if records.len() == 30 {
        assert(last_records(older + records) =~= records);
    }
}

/// One more record behind a short log shows its message behind the others.
pub proof fn law_recent_grows(records: Seq<RecordModel>, record: RecordModel)
    requires
        records.len() < 30,
    ensures
        shown(record) is Some ==> recent(records.push(record)) == recent(records).push(
            shown(record)->0,
        ),
        shown(record) is None ==> recent(records.push(record)) == recent(records),
{
    assert(records.push(record).drop_last() =~= records);
}

/// A record holds the `type` of its document and the `content` of its `message`, where these are
/// strings in objects.
pub proof fn law_record_of(doc: Json, kind: Seq<char>, content: Seq<char>)
    ensures
        record_of(doc).kind == Some(kind) <==> (doc matches Json::Object(fields)
            && fields.dom().contains("type"@) && fields["type"@] == Json::Text(kind)),
        record_of(doc).content == Some(content) <==> (doc matches Json::Object(fields)
            && fields.dom().contains("message"@) && (fields["message"@] matches Json::Object(message)
            && message.dom().contains("content"@) && message["content"@] == Json::Text(content))),
{
}

/// One line holds one record where it is JSON, and none otherwise.
pub proof fn law_one_record(line: Seq<char>)
    ensures
        records_of(Seq::empty()) == Seq::<RecordModel>::empty(),
        document(line) is Some ==> records_of(seq![line]) == seq![record_of(document(line)->0)],
        document(line) is None ==> records_of(seq![line]) == Seq::<RecordModel>::empty(),
{
    reveal_with_fuel(records_of, 2);
    assert(seq![line].drop_last() =~= Seq::<Seq<char>>::empty());
    assert(Seq::<RecordModel>::empty().push(record_of(document(line)->0)) =~= seq![
        record_of(document(line)->0),
    ]);
}

} // verus!
