//! The "repository created" lifecycle event: validated field types, the
//! builder that assembles an event from creation parameters, and the JSON
//! rendering of the event.
//!
//! Every field with a declared format is validated when it is
//! constructed; a malformed value stops event construction with an error
//! instead of producing an invalid event.

use vstd::prelude::*;

verus! {

use vstd::string::StrSliceExecFns;
use vstd::string::StringExecFns;
use crate::model::GithubRepoParams;
use crate::model::SkootError;
use crate::model::full_url_spec;

/// Whether `c` is an ASCII decimal digit.
pub open spec fn is_digit_char(c: char) -> bool {
    '0' <= c && c <= '9'
}

/// A non-empty run of digits without a leading zero: one numeric
/// component of a semantic version.
pub open spec fn is_number_seq(s: Seq<char>) -> bool {
    &&& s.len() > 0
    &&& forall|i: int| 0 <= i < s.len() ==> is_digit_char(#[trigger] s[i])
    &&& s.len() > 1 ==> s[0] != '0'
}

/// Whether dots at positions `i` and `j` split `s` into the three numeric
/// components `major.minor.patch`.
pub open spec fn semver_split_at(s: Seq<char>, i: int, j: int) -> bool {
    &&& 0 <= i < j < s.len()
    &&& s[i] == '.'
    &&& s[j] == '.'
    &&& is_number_seq(s.subrange(0, i))
    &&& is_number_seq(s.subrange(i + 1, j))
    &&& is_number_seq(s.subrange(j + 1, s.len() as int))
}

/// Whether `s` is a semantic version core: `major.minor.patch`, each
/// component a number without a leading zero.
pub open spec fn is_semver(s: Seq<char>) -> bool {
    exists|i: int, j: int| semver_split_at(s, i, j)
}

/// In a well-split version string the only dots are the two separators.
proof fn lemma_dot_in_split(s: Seq<char>, a: int, b: int, p: int)
    requires
        semver_split_at(s, a, b),
        0 <= p < s.len(),
        s[p] == '.',
    ensures
        p == a || p == b,
{
    if p != a && p != b {
        if p < a {
            assert(s.subrange(0, a)[p] == '.');
            assert(is_digit_char(s.subrange(0, a)[p]));
        } else if p < b {
            assert(s.subrange(a + 1, b)[p - a - 1] == '.');
            assert(is_digit_char(s.subrange(a + 1, b)[p - a - 1]));
        } else {
            assert(s.subrange(b + 1, s.len() as int)[p - b - 1] == '.');
            assert(is_digit_char(s.subrange(b + 1, s.len() as int)[p - b - 1]));
        }
        assert(!is_digit_char('.'));
        assert(false);
    }
}

/// Whether the characters of `s` between `from` and `to` form one numeric
/// version component.
fn check_number(s: &str, from: usize, to: usize) -> (r: bool)
    requires
        from <= to <= s@.len(),
    ensures
        r == is_number_seq(s@.subrange(from as int, to as int)),
{
    let ghost t = s@.subrange(from as int, to as int);
    if from == to {
        return false;
    }
    if to - from > 1 {
        let c0 = s.get_char(from);
        if c0 == '0' {
            assert(t[0] == '0');
            return false;
        }
    }
    let mut i: usize = from;
    while i < to
        invariant
            from <= i <= to <= s@.len(),
            t == s@.subrange(from as int, to as int),
            forall|k: int| 0 <= k < i - from ==> is_digit_char(#[trigger] t[k]),
        decreases to - i,
    {
        let c = s.get_char(i);
        if !('0' <= c && c <= '9') {
            assert(t[i - from] == c);
            return false;
        }
        i += 1;
    }
    assert(t.len() > 1 ==> t[0] != '0');
    true
}

/// Whether `s` is a semantic version core, decided exactly as `is_semver`
/// states it.
fn is_semver_str(s: &str) -> (r: bool)
    ensures
        r == is_semver(s@),
{
    let len = s.unicode_len();
    let mut d1: usize = 0;
    let mut d2: usize = 0;
    let mut ndots: usize = 0;
    let mut i: usize = 0;
    while i < len
        invariant
            i <= len,
            len == s@.len(),
            ndots <= 2,
            ndots >= 1 ==> d1 < i && s@[d1 as int] == '.',
            ndots == 2 ==> d1 < d2 && d2 < i && s@[d2 as int] == '.',
            forall|k: int| 0 <= k < i ==> ((#[trigger] s@[k]) == '.' <==> ((ndots >= 1 && k
                == d1 as int) || (ndots == 2 && k == d2 as int))),
        decreases len - i,
    {
        let c = s.get_char(i);
        if c == '.' {
            if ndots == 0 {
                d1 = i;
                ndots = 1;
            } else if ndots == 1 {
                d2 = i;
                ndots = 2;
            } else {
                proof {
                    assert forall|a: int, b: int| !semver_split_at(s@, a, b) by {
                        if semver_split_at(s@, a, b) {
                            lemma_dot_in_split(s@, a, b, d1 as int);
                            lemma_dot_in_split(s@, a, b, d2 as int);
                            lemma_dot_in_split(s@, a, b, i as int);
                            assert(false);
                        }
                    }
                }
                return false;
            }
        }
        i += 1;
    }
    if ndots != 2 {
        proof {
            assert forall|a: int, b: int| !semver_split_at(s@, a, b) by {
                if semver_split_at(s@, a, b) {
                    assert(s@[a] == '.');
                    assert(s@[b] == '.');
                    assert(false);
                }
            }
        }
        return false;
    }
    let r1 = check_number(s, 0, d1);
    let r2 = check_number(s, d1 + 1, d2);
    let r3 = check_number(s, d2 + 1, len);
    let r = r1 && r2 && r3;
    proof {
        if r {
            assert(semver_split_at(s@, d1 as int, d2 as int));
        } else {
            assert forall|a: int, b: int| !semver_split_at(s@, a, b) by {
                if semver_split_at(s@, a, b) {
                    assert(s@[a] == '.');
                    assert(s@[b] == '.');
                    assert(a == d1 as int && b == d2 as int);
                    assert(r1 && r2 && r3);
                    assert(false);
                }
            }
        }
    }
    r
}

/// The schema version of the event format that this builder emits.
pub open spec fn schema_version() -> Seq<char> {
    "0.3.0"@
}

/// The fixed schema version is well formed.
proof fn lemma_schema_version_is_semver()
    ensures
        is_semver(schema_version()),
{
    reveal_strlit("0.3.0");
    let s = schema_version();
    assert(s.len() == 5);
    assert(s[1] == '.');
    assert(s[3] == '.');
    assert(s.subrange(0, 1) =~= seq!['0']);
    assert(s.subrange(2, 3) =~= seq!['3']);
    assert(s.subrange(4, 5) =~= seq!['0']);
    assert(is_number_seq(seq!['0'])) by {
        assert(seq!['0'][0] == '0');
    }
    assert(is_number_seq(seq!['3'])) by {
        assert(seq!['3'][0] == '3');
    }
    assert(semver_split_at(s, 1, 3));
}

/// The identifier of the event's context: a non-empty string.
pub struct RepositoryCreatedEventContextId {
    id: String,
}

impl View for RepositoryCreatedEventContextId {
    type V = Seq<char>;

    closed spec fn view(&self) -> Seq<char> {
        self.id@
    }
}

impl RepositoryCreatedEventContextId {
    /// Accepts exactly the non-empty strings.
    pub fn from_str(s: &str) -> (r: Result<Self, SkootError>)
        ensures
            s@.len() > 0 ==> (r matches Ok(v) && v@ == s@),
            s@.len() == 0 ==> (r matches Err(e) && e is InvalidEventField),
    {
        if s.is_empty() {
            Err(SkootError::InvalidEventField("context id".to_owned()))
        } else {
            Ok(RepositoryCreatedEventContextId { id: s.to_owned() })
        }
    }

    pub fn as_str(&self) -> (r: &str)
        ensures
            r@ == self@,
    {
        self.id.as_str()
    }
}

/// The schema version carried by the event's context: a semantic version
/// string, kept exactly as it was accepted.
pub struct RepositoryCreatedEventContextVersion {
    version: String,
}

impl View for RepositoryCreatedEventContextVersion {
    type V = Seq<char>;

    closed spec fn view(&self) -> Seq<char> {
        self.version@
    }
}

impl RepositoryCreatedEventContextVersion {
    /// Accepts exactly the semantic version strings, and keeps the
    /// accepted string unchanged, so that re-serializing gives back the
    /// parsed input.
    pub fn from_str(s: &str) -> (r: Result<Self, SkootError>)
        ensures
            is_semver(s@) ==> (r matches Ok(v) && v@ == s@),
            !is_semver(s@) ==> (r matches Err(e) && e is InvalidEventField),
    {
        if is_semver_str(s) {
            Ok(RepositoryCreatedEventContextVersion { version: s.to_owned() })
        } else {
            Err(SkootError::InvalidEventField("version".to_owned()))
        }
    }

    pub fn as_str(&self) -> (r: &str)
        ensures
            r@ == self@,
    {
        self.version.as_str()
    }
}

/// The identifier of the event's subject: a non-empty string.
pub struct RepositoryCreatedEventSubjectId {
    id: String,
}

impl View for RepositoryCreatedEventSubjectId {
    type V = Seq<char>;

    closed spec fn view(&self) -> Seq<char> {
        self.id@
    }
}

impl RepositoryCreatedEventSubjectId {
    /// Accepts exactly the non-empty strings.
    pub fn from_str(s: &str) -> (r: Result<Self, SkootError>)
        ensures
            s@.len() > 0 ==> (r matches Ok(v) && v@ == s@),
            s@.len() == 0 ==> (r matches Err(e) && e is InvalidEventField),
    {
        if s.is_empty() {
            Err(SkootError::InvalidEventField("subject id".to_owned()))
        } else {
            Ok(RepositoryCreatedEventSubjectId { id: s.to_owned() })
        }
    }

    pub fn as_str(&self) -> (r: &str)
        ensures
            r@ == self@,
    {
        self.id.as_str()
    }
}

/// The repository's display name in the event's subject: a non-empty
/// string.
pub struct RepositoryCreatedEventSubjectContentName {
    name: String,
}

impl View for RepositoryCreatedEventSubjectContentName {
    type V = Seq<char>;

    closed spec fn view(&self) -> Seq<char> {
        self.name@
    }
}

impl RepositoryCreatedEventSubjectContentName {
    /// Accepts exactly the non-empty strings.
    pub fn from_str(s: &str) -> (r: Result<Self, SkootError>)
        ensures
            s@.len() > 0 ==> (r matches Ok(v) && v@ == s@),
            s@.len() == 0 ==> (r matches Err(e) && e is InvalidEventField),
    {
        if s.is_empty() {
            Err(SkootError::InvalidEventField("subject name".to_owned()))
        } else {
            Ok(RepositoryCreatedEventSubjectContentName { name: s.to_owned() })
        }
    }

    pub fn as_str(&self) -> (r: &str)
        ensures
            r@ == self@,
    {
        self.name.as_str()
    }
}

/// The repository's canonical URL in the event's subject: a non-empty
/// string.
pub struct RepositoryCreatedEventSubjectContentUrl {
    url: String,
}

impl View for RepositoryCreatedEventSubjectContentUrl {
    type V = Seq<char>;

    closed spec fn view(&self) -> Seq<char> {
        self.url@
    }
}

impl RepositoryCreatedEventSubjectContentUrl {
    /// Accepts exactly the non-empty strings.
    pub fn from_str(s: &str) -> (r: Result<Self, SkootError>)
        ensures
            s@.len() > 0 ==> (r matches Ok(v) && v@ == s@),
            s@.len() == 0 ==> (r matches Err(e) && e is InvalidEventField),
    {
        if s.is_empty() {
            Err(SkootError::InvalidEventField("subject url".to_owned()))
        } else {
            Ok(RepositoryCreatedEventSubjectContentUrl { url: s.to_owned() })
        }
    }

    pub fn as_str(&self) -> (r: &str)
        ensures
            r@ == self@,
    {
        self.url.as_str()
    }
}

/// The fixed discriminator naming the kind of event.
pub enum RepositoryCreatedEventContextType {
    DevCdeventsRepositoryCreated011,
}

impl RepositoryCreatedEventContextType {
    pub open spec fn spec_str(&self) -> Seq<char> {
        "dev.cdevents.repository.created.0.1.1"@
    }

    pub fn as_str(&self) -> (r: &str)
        ensures
            r@ == self.spec_str(),
    {
        "dev.cdevents.repository.created.0.1.1"
    }
}

/// The fixed discriminator naming the kind of subject.
pub enum RepositoryCreatedEventSubjectType {
    Repository,
}

impl RepositoryCreatedEventSubjectType {
    pub open spec fn spec_str(&self) -> Seq<char> {
        "repository"@
    }

    pub fn as_str(&self) -> (r: &str)
        ensures
            r@ == self.spec_str(),
    {
        "repository"
    }
}

/// The context of a "repository created" event: what happened, where it
/// was observed, and when.
pub struct RepositoryCreatedEventContext {
    pub id: RepositoryCreatedEventContextId,
    pub source: String,
    pub timestamp: String,
    pub type_: RepositoryCreatedEventContextType,
    pub version: RepositoryCreatedEventContextVersion,
}

/// What the event's subject carries about the created repository.
pub struct RepositoryCreatedEventSubjectContent {
    pub name: RepositoryCreatedEventSubjectContentName,
    pub owner: Option<String>,
    pub url: RepositoryCreatedEventSubjectContentUrl,
    pub view_url: Option<String>,
}

/// The subject of a "repository created" event: the repository itself.
pub struct RepositoryCreatedEventSubject {
    pub content: RepositoryCreatedEventSubjectContent,
    pub id: RepositoryCreatedEventSubjectId,
    pub source: Option<String>,
    pub type_: RepositoryCreatedEventSubjectType,
}

/// A structured record of one repository creation, for audit and
/// telemetry consumption.
pub struct RepositoryCreatedEvent {
    pub context: RepositoryCreatedEventContext,
    pub subject: RepositoryCreatedEventSubject,
}

/// The identifier `{owner}/{name}` that both the context and the subject
/// of the event carry.
pub open spec fn repo_id(owner: Seq<char>, name: Seq<char>) -> Seq<char> {
    owner + "/"@ + name
}

/// The fixed source tag naming this tool as the event's originator.
pub open spec fn event_source() -> Seq<char> {
    "skootrs.github.creator"@
}

/// What a well-built event says about a repository `name` owned by
/// `owner`: both identifiers are `{owner}/{name}`, the source tags name
/// this tool, the subject records the repository's name, owner and
/// canonical URL, and the schema version is the fixed one.
pub open spec fn event_describes(
    ev: RepositoryCreatedEvent,
    owner: Seq<char>,
    name: Seq<char>,
) -> bool {
    &&& ev.context.id@ == repo_id(owner, name)
    &&& ev.context.source@ == event_source()
    &&& ev.context.version@ == schema_version()
    &&& ev.subject.id@ == repo_id(owner, name)
    &&& ev.subject.content.name@ == name
    &&& (ev.subject.content.owner matches Some(o) && o@ == owner)
    &&& ev.subject.content.url@ == full_url_spec(owner, name)
    &&& (ev.subject.content.view_url matches Some(u) && u@ == full_url_spec(owner, name))
    &&& (ev.subject.source matches Some(s) && s@ == event_source())
}

/// Builds the "repository created" event for a creation that the
/// provider has confirmed. Construction fails exactly when the
/// repository name is empty, the one field whose validation can fail
/// here: both identifiers contain a `/`, the URL contains its scheme,
/// and the schema version is the fixed well-formed one.
pub fn build_event(github_params: &GithubRepoParams, timestamp: String) -> (r: Result<
    RepositoryCreatedEvent,
    SkootError,
>)
    ensures
        github_params.name@.len() > 0 ==> (r matches Ok(ev) && event_describes(
            ev,
            github_params.organization.spec_name(),
            github_params.name@,
        ) && ev.context.timestamp@ == timestamp@),
        github_params.name@.len() == 0 ==> (r matches Err(e) && e is InvalidEventField),
{
    let owner = github_params.organization.get_name();
    let mut id = owner.clone();
    id.append("/");
    id.append(github_params.name.as_str());
    proof {
        reveal_strlit("/");
        assert(id@.len() > 0);
    }
    let context_id = match RepositoryCreatedEventContextId::from_str(id.as_str()) {
        Ok(v) => v,
        Err(e) => {
            return Err(e);
        },
    };
    let subject_id = match RepositoryCreatedEventSubjectId::from_str(id.as_str()) {
        Ok(v) => v,
        Err(e) => {
            return Err(e);
        },
    };
    proof {
        lemma_schema_version_is_semver();
    }
    let version = match RepositoryCreatedEventContextVersion::from_str("0.3.0") {
        Ok(v) => v,
        Err(e) => {
            return Err(e);
        },
    };
    let name = match RepositoryCreatedEventSubjectContentName::from_str(
        github_params.name.as_str(),
    ) {
        Ok(v) => v,
        Err(e) => {
            return Err(e);
        },
    };
    let url_string = github_params.full_url();
    proof {
        reveal_strlit("https://github.com/");
        assert(url_string@.len() > 0);
    }
    let url = match RepositoryCreatedEventSubjectContentUrl::from_str(url_string.as_str()) {
        Ok(v) => v,
        Err(e) => {
            return Err(e);
        },
    };
    let view_url = github_params.full_url();
    Ok(
        RepositoryCreatedEvent {
            context: RepositoryCreatedEventContext {
                id: context_id,
                source: "skootrs.github.creator".to_owned(),
                timestamp,
                type_: RepositoryCreatedEventContextType::DevCdeventsRepositoryCreated011,
                version,
            },
            subject: RepositoryCreatedEventSubject {
                content: RepositoryCreatedEventSubjectContent {
                    name,
                    owner: Some(owner),
                    url,
                    view_url: Some(view_url),
                },
                id: subject_id,
                source: Some("skootrs.github.creator".to_owned()),
                type_: RepositoryCreatedEventSubjectType::Repository,
            },
        },
    )
}

/// How one character appears inside a JSON string literal: quotes and
/// backslashes are escaped, every other character stands as itself.
pub open spec fn esc_char(c: char) -> Seq<char> {
    if c == '"' || c == '\\' {
        seq!['\\', c]
    } else {
        seq![c]
    }
}

/// The body of the JSON string literal that renders `s`.
pub open spec fn json_escaped(s: Seq<char>) -> Seq<char>
    decreases s.len(),
{
    if s.len() == 0 {
        Seq::empty()
    } else {
        esc_char(s[0]) + json_escaped(s.subrange(1, s.len() as int))
    }
}

/// The JSON string literal that renders `s`, quotes included.
pub open spec fn json_quoted(s: Seq<char>) -> Seq<char> {
    seq!['"'] + json_escaped(s) + seq!['"']
}

/// How an optional string field renders: `null` when absent, a string
/// literal when present.
pub open spec fn json_opt(o: Option<String>) -> Seq<char> {
    match o {
        Option::None => "null"@,
        Option::Some(s) => json_quoted(s@),
    }
}

/// Escaping a string one character longer escapes the prefix and then
/// the last character.
proof fn lemma_json_escaped_push(s: Seq<char>, c: char)
    ensures
        json_escaped(s.push(c)) == json_escaped(s) + esc_char(c),
    decreases s.len(),
{
    let e = s.push(c);
    if s.len() == 0 {
        assert(e.len() == 1);
        assert(e[0] == c);
        let tail = e.subrange(1, e.len() as int);
        assert(tail =~= Seq::<char>::empty());
        assert(json_escaped(tail) == Seq::<char>::empty());
        assert(json_escaped(e) == esc_char(c) + json_escaped(tail));
        assert(esc_char(c) + Seq::<char>::empty() =~= esc_char(c));
        assert(json_escaped(s) == Seq::<char>::empty());
        assert(json_escaped(s) + esc_char(c) =~= esc_char(c));
    } else {
        assert(e[0] == s[0]);
        assert(e.subrange(1, e.len() as int) =~= s.subrange(1, s.len() as int).push(c));
        lemma_json_escaped_push(s.subrange(1, s.len() as int), c);
        assert(esc_char(s[0]) + (json_escaped(s.subrange(1, s.len() as int)) + esc_char(c)) =~= (
        esc_char(s[0]) + json_escaped(s.subrange(1, s.len() as int))) + esc_char(c));
    }
}

/// Relies on String::push: appends the one character `c` at the end of
/// the string.
#[verifier::external_body]
fn push_char(s: &mut String, c: char)
    ensures
        final (s)@ == old(s)@ + seq![c],
{
    s.push(c);
}

/// Appends the body of the JSON string literal for `s` to `out`.
fn append_json_escaped(out: &mut String, s: &str)
    ensures
        final (out)@ == old(out)@ + json_escaped(s@),
{
    let len = s.unicode_len();
    let mut i: usize = 0;
    while i < len
        invariant
            i <= len,
            len == s@.len(),
            out@ == old(out)@ + json_escaped(s@.subrange(0, i as int)),
        decreases len - i,
    {
        let ghost prefix = s@.subrange(0, i as int);
        let c = s.get_char(i);
        proof {
            assert(prefix.push(c) =~= s@.subrange(0, i + 1 as int));
            lemma_json_escaped_push(prefix, c);
        }
        if c == '"' {
            out.append("\\\"");
            proof {
                reveal_strlit("\\\"");
                assert("\\\""@ =~= esc_char(c));
                assert((old(out)@ + json_escaped(prefix)) + esc_char(c) =~= old(out)@ + (
                json_escaped(prefix) + esc_char(c)));
            }
        } else if c == '\\' {
            out.append("\\\\");
            proof {
                reveal_strlit("\\\\");
                assert("\\\\"@ =~= esc_char(c));
                assert((old(out)@ + json_escaped(prefix)) + esc_char(c) =~= old(out)@ + (
                json_escaped(prefix) + esc_char(c)));
            }
        } else {
            push_char(out, c);
            proof {
                assert(seq![c] =~= esc_char(c));
                assert((old(out)@ + json_escaped(prefix)) + esc_char(c) =~= old(out)@ + (
                json_escaped(prefix) + esc_char(c)));
            }
        }
        i += 1;
    }
    proof {
        assert(s@.subrange(0, len as int) =~= s@);
    }
}

/// Appends the JSON string literal for `s`, quotes included, to `out`.
fn append_json_string(out: &mut String, s: &str)
    ensures
        final (out)@ == old(out)@ + json_quoted(s@),
{
    push_char(out, '"');
    append_json_escaped(out, s);
    push_char(out, '"');
    proof {
        assert(((old(out)@ + seq!['"']) + json_escaped(s@)) + seq!['"'] =~= old(out)@ + json_quoted(
            s@,
        ));
    }
}

/// Appends the rendering of an optional string field to `out`.
fn append_json_opt(out: &mut String, o: &Option<String>)
    ensures
        final (out)@ == old(out)@ + json_opt(*o),
{
    match o {
        Option::None => {
            out.append("null");
        },
        Option::Some(s) => {
            append_json_string(out, s.as_str());
        },
    }
}

/// The JSON object that renders the event's context, its keys in
/// declaration order.
pub open spec fn context_json(c: RepositoryCreatedEventContext) -> Seq<char> {
    "{\"id\":"@ + json_quoted(c.id@) + ",\"source\":"@ + json_quoted(c.source@)
        + ",\"timestamp\":"@ + json_quoted(c.timestamp@) + ",\"type\":"@ + json_quoted(
        c.type_.spec_str(),
    ) + ",\"version\":"@ + json_quoted(c.version@) + "}"@
}

/// The JSON object that renders the subject's content, its keys in
/// declaration order.
pub open spec fn content_json(c: RepositoryCreatedEventSubjectContent) -> Seq<char> {
    "{\"name\":"@ + json_quoted(c.name@) + ",\"owner\":"@ + json_opt(c.owner) + ",\"url\":"@
        + json_quoted(c.url@) + ",\"view_url\":"@ + json_opt(c.view_url) + "}"@
}

/// The JSON object that renders the event's subject, its keys in
/// declaration order.
pub open spec fn subject_json(s: RepositoryCreatedEventSubject) -> Seq<char> {
    "{\"content\":"@ + content_json(s.content) + ",\"id\":"@ + json_quoted(s.id@) + ",\"source\":"@
        + json_opt(s.source) + ",\"type\":"@ + json_quoted(s.type_.spec_str()) + "}"@
}

/// The JSON object that renders the whole event.
pub open spec fn event_json(e: RepositoryCreatedEvent) -> Seq<char> {
    "{\"context\":"@ + context_json(e.context) + ",\"subject\":"@ + subject_json(e.subject) + "}"@
}

/// Appends the rendering of the event's context to `out`.
fn append_context_json(out: &mut String, c: &RepositoryCreatedEventContext)
    ensures
        final (out)@ == old(out)@ + context_json(*c),
{
    out.append("{\"id\":");
    append_json_string(out, c.id.as_str());
    out.append(",\"source\":");
    append_json_string(out, c.source.as_str());
    out.append(",\"timestamp\":");
    append_json_string(out, c.timestamp.as_str());
    out.append(",\"type\":");
    append_json_string(out, c.type_.as_str());
    out.append(",\"version\":");
    append_json_string(out, c.version.as_str());
    out.append("}");
    proof {
        assert(out@ =~= old(out)@ + context_json(*c));
    }
}

/// Appends the rendering of the subject's content to `out`.
fn append_content_json(out: &mut String, c: &RepositoryCreatedEventSubjectContent)
    ensures
        final (out)@ == old(out)@ + content_json(*c),
{
    out.append("{\"name\":");
    append_json_string(out, c.name.as_str());
    out.append(",\"owner\":");
    append_json_opt(out, &c.owner);
    out.append(",\"url\":");
    append_json_string(out, c.url.as_str());
    out.append(",\"view_url\":");
    append_json_opt(out, &c.view_url);
    out.append("}");
    proof {
        assert(out@ =~= old(out)@ + content_json(*c));
    }
}

/// Appends the rendering of the event's subject to `out`.
fn append_subject_json(out: &mut String, s: &RepositoryCreatedEventSubject)
    ensures
        final (out)@ == old(out)@ + subject_json(*s),
{
    out.append("{\"content\":");
    append_content_json(out, &s.content);
    out.append(",\"id\":");
    append_json_string(out, s.id.as_str());
    out.append(",\"source\":");
    append_json_opt(out, &s.source);
    out.append(",\"type\":");
    append_json_string(out, s.type_.as_str());
    out.append("}");
    proof {
        assert(out@ =~= old(out)@ + subject_json(*s));
    }
}

impl RepositoryCreatedEvent {
    /// The JSON serialization of the event, as the embedding program
    /// writes it to the structured log stream.
    pub fn to_json(&self) -> (r: String)
        ensures
            r@ == event_json(*self),
    {
        let mut out = String::new();
        out.append("{\"context\":");
        append_context_json(&mut out, &self.context);
        out.append(",\"subject\":");
        append_subject_json(&mut out, &self.subject);
        out.append("}");
        proof {
            assert(out@ =~= event_json(*self));
        }
        out
    }
}

} // verus!
