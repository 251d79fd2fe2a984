//! The records exchanged with the API, and the JSON of the request bodies.
use vstd::prelude::*;

use crate::error::ApiError;

verus! {

#[derive(Debug, Clone, Copy, PartialEq, Eq, Structural)]
pub enum TeamVisibilityType {
    Public,
    Private,
}

#[derive(Debug, Clone, Copy, PartialEq, Eq, Structural)]
pub enum NotePublishType {
    Edit,
    View,
    Slide,
    Book,
}

#[derive(Debug, Clone, Copy, PartialEq, Eq, Structural)]
pub enum CommentPermissionType {
    Disabled,
    Forbidden,
    Owners,
    SignedInUsers,
    Everyone,
}

#[derive(Debug, Clone, Copy, PartialEq, Eq, Structural)]
pub enum NotePermissionRole {
    Owner,
    SignedIn,
    Guest,
}

impl TeamVisibilityType {
    pub open spec fn spec_wire_name(&self) -> Seq<char> {
        match self {
            TeamVisibilityType::Public => "public"@,
            TeamVisibilityType::Private => "private"@,
        }
    }

    /// The name on the wire.
    pub fn wire_name(&self) -> (r: &'static str)
        ensures
            r@ == self.spec_wire_name(),
    {
        match self {
            TeamVisibilityType::Public => "public",
            TeamVisibilityType::Private => "private",
        }
    }
}

impl NotePublishType {
    pub open spec fn spec_wire_name(&self) -> Seq<char> {
        match self {
            NotePublishType::Edit => "edit"@,
            NotePublishType::View => "view"@,
            NotePublishType::Slide => "slide"@,
            NotePublishType::Book => "book"@,
        }
    }

    /// The name on the wire.
    pub fn wire_name(&self) -> (r: &'static str)
        ensures
            r@ == self.spec_wire_name(),
    {
        match self {
            NotePublishType::Edit => "edit",
            NotePublishType::View => "view",
            NotePublishType::Slide => "slide",
            NotePublishType::Book => "book",
        }
    }
}

impl CommentPermissionType {
    pub open spec fn spec_wire_name(&self) -> Seq<char> {
        match self {
            CommentPermissionType::Disabled => "disabled"@,
            CommentPermissionType::Forbidden => "forbidden"@,
            CommentPermissionType::Owners => "owners"@,
            CommentPermissionType::SignedInUsers => "signed_in_users"@,
            CommentPermissionType::Everyone => "everyone"@,
        }
    }

    /// The name on the wire.
    pub fn wire_name(&self) -> (r: &'static str)
        ensures
            r@ == self.spec_wire_name(),
    {
        match self {
            CommentPermissionType::Disabled => "disabled",
            CommentPermissionType::Forbidden => "forbidden",
            CommentPermissionType::Owners => "owners",
            CommentPermissionType::SignedInUsers => "signed_in_users",
            CommentPermissionType::Everyone => "everyone",
        }
    }
}

impl NotePermissionRole {
    pub open spec fn spec_wire_name(&self) -> Seq<char> {
        match self {
            NotePermissionRole::Owner => "owner"@,
            NotePermissionRole::SignedIn => "signed_in"@,
            NotePermissionRole::Guest => "guest"@,
        }
    }

    /// The name on the wire.
    pub fn wire_name(&self) -> (r: &'static str)
        ensures
            r@ == self.spec_wire_name(),
    {
        match self {
            NotePermissionRole::Owner => "owner",
            NotePermissionRole::SignedIn => "signed_in",
            NotePermissionRole::Guest => "guest",
        }
    }
}

/// The body of a request that creates a note; absent fields are left out.
#[derive(Debug, Clone)]
pub struct CreateNoteOptions {
    pub title: Option<String>,
    pub content: Option<String>,
    pub read_permission: Option<NotePermissionRole>,
    pub write_permission: Option<NotePermissionRole>,
    pub comment_permission: Option<CommentPermissionType>,
    pub permalink: Option<String>,
}

/// The body of a request that changes a note; absent fields are left out.
#[derive(Debug, Clone)]
pub struct UpdateNoteOptions {
    pub content: Option<String>,
    pub read_permission: Option<NotePermissionRole>,
    pub write_permission: Option<NotePermissionRole>,
    pub permalink: Option<String>,
}

/// A team; `created_at` is in milliseconds since the epoch.
#[derive(Debug, Clone)]
pub struct Team {
    pub id: String,
    pub owner_id: Option<String>,
    pub name: String,
    pub logo: String,
    pub path: String,
    pub description: Option<String>,
    pub hard_breaks: Option<bool>,
    pub visibility: TeamVisibilityType,
    pub created_at: i64,
    pub upgraded: bool,
}

#[derive(Debug, Clone)]
pub struct User {
    pub id: String,
    pub email: Option<String>,
    pub name: String,
    pub user_path: String,
    pub photo: String,
    pub teams: Vec<Team>,
    pub upgraded: bool,
}

#[derive(Debug, Clone)]
pub struct SimpleUserProfile {
    pub name: String,
    pub user_path: String,
    pub photo: String,
    pub biography: Option<String>,
}

/// A note's metadata; the times are in milliseconds since the epoch.
#[derive(Debug, Clone)]
pub struct Note {
    pub id: String,
    pub title: String,
    pub tags: Vec<String>,
    pub last_changed_at: i64,
    pub created_at: i64,
    pub last_change_user: Option<SimpleUserProfile>,
    pub publish_type: NotePublishType,
    pub published_at: Option<i64>,
    pub user_path: Option<String>,
    pub team_path: Option<String>,
    pub permalink: Option<String>,
    pub short_id: String,
    pub publish_link: String,
    pub read_permission: NotePermissionRole,
    pub write_permission: NotePermissionRole,
}

/// A note with its content.
#[derive(Debug, Clone)]
pub struct SingleNote {
    pub content: String,
    pub note: Note,
}

pub open spec fn hex_digit(n: nat) -> char {
    if n < 10 {
        ('0' as int + n) as char
    } else {
        ('a' as int + n - 10) as char
    }
}

/// How one character stands inside a JSON string literal: quote and
/// backslash escaped, control characters as their short escape or as
/// `\u00xx`, every other character as it is.
pub open spec fn json_escape_char(c: char) -> Seq<char> {
    if c == '"' {
        seq!['\\', '"']
    } else if c == '\\' {
        seq!['\\', '\\']
    } else if c == '\x08' {
        seq!['\\', 'b']
    } else if c == '\t' {
        seq!['\\', 't']
    } else if c == '\n' {
        seq!['\\', 'n']
    } else if c == '\x0c' {
        seq!['\\', 'f']
    } else if c == '\r' {
        seq!['\\', 'r']
    } else if (c as u32) < 32 {
        seq!['\\', 'u', '0', '0', hex_digit((c as u32) as nat / 16), hex_digit((c as u32) as nat % 16)]
    } else {
        seq![c]
    }
}

pub open spec fn json_escaped(s: Seq<char>) -> Seq<char>
    decreases s.len(),
{
    if s.len() == 0 {
        Seq::empty()
    } else {
        json_escaped(s.drop_last()) + json_escape_char(s.last())
    }
}

/// The JSON string literal for a text: quoted, with its specials escaped.
pub open spec fn json_string_of(s: Seq<char>) -> Seq<char> {
    "\""@ + json_escaped(s) + "\""@
}

/// Relies on serde_json::to_string on a `str`: the quoted literal with `"`,
/// `\` and the characters below U+0020 escaped. It writes into a `Vec`, so
/// it does not fail.
#[verifier::external_body]
fn json_string(s: &str) -> (r: Result<String, serde_json::Error>)
    ensures
        r is Ok,
        r->Ok_0@ == json_string_of(s@),
{
    serde_json::to_string(s)
}

/// `"key":value`.
pub open spec fn json_member(key: Seq<char>, value: Seq<char>) -> Seq<char> {
    "\""@ + key + "\":"@ + value
}

/// The members joined by commas.
pub open spec fn json_members(ms: Seq<Seq<char>>) -> Seq<char>
    decreases ms.len(),
{
    if ms.len() == 0 {
        Seq::empty()
    } else if ms.len() == 1 {
        ms[0]
    } else {
        json_members(ms.drop_last()) + ","@ + ms.last()
    }
}

pub open spec fn json_object(ms: Seq<Seq<char>>) -> Seq<char> {
    "{"@ + json_members(ms) + "}"@
}

pub open spec fn text_member(key: Seq<char>, value: Option<String>) -> Seq<Seq<char>> {
    match value {
        Some(v) => seq![json_member(key, json_string_of(v@))],
        None => Seq::empty(),
    }
}

pub open spec fn name_member(key: Seq<char>, name: Option<Seq<char>>) -> Seq<Seq<char>> {
    match name {
        Some(n) => seq![json_member(key, "\""@ + n + "\""@)],
        None => Seq::empty(),
    }
}

pub open spec fn role_name(r: Option<NotePermissionRole>) -> Option<Seq<char>> {
    match r {
        Some(x) => Some(x.spec_wire_name()),
        None => None,
    }
}

pub open spec fn comment_name(r: Option<CommentPermissionType>) -> Option<Seq<char>> {
    match r {
        Some(x) => Some(x.spec_wire_name()),
        None => None,
    }
}

pub open spec fn texts(v: Seq<String>) -> Seq<Seq<char>> {
    v.map_values(|m: String| m@)
}

fn push_text_member(members: &mut Vec<String>, key: &str, value: &Option<String>) -> (r: Result<
    (),
    ApiError,
>)
    ensures
        r is Ok,
        texts(final(members)@) == texts(old(members)@) + text_member(key@, *value),
{
    match value {
        Some(v) => {
            let encoded = match json_string(v.as_str()) {
                Ok(t) => t,
                Err(e) => {
                    return Err(ApiError::Serde(e));
                },
            };
            let mut m = String::new();
            m.append("\"");
            m.append(key);
            m.append("\":");
            m.append(encoded.as_str());
            assert(m@ =~= json_member(key@, json_string_of(v@)));
            members.push(m);
            assert(texts(final(members)@) =~= texts(old(members)@) + text_member(key@, *value));
        },
        None => {
            assert(texts(final(members)@) =~= texts(old(members)@) + text_member(key@, *value));
        },
    }
    Ok(())
}

fn push_name_member(members: &mut Vec<String>, key: &str, name: Option<&str>)
    ensures
        texts(final(members)@) == texts(old(members)@) + name_member(
            key@,
            match name {
                Some(n) => Some(n@),
                None => None,
            },
        ),
{
    match name {
        Some(n) => {
            let mut m = String::new();
            m.append("\"");
            m.append(key);
            m.append("\":");
            m.append("\"");
            m.append(n);
            m.append("\"");
            assert(m@ =~= json_member(key@, "\""@ + n@ + "\""@));
            members.push(m);
            assert(texts(final(members)@) =~= texts(old(members)@) + seq![
                json_member(key@, "\""@ + n@ + "\""@),
            ]);
        },
        None => {
            assert(texts(final(members)@) =~= texts(old(members)@));
        },
    }
}

fn role_text(r: &Option<NotePermissionRole>) -> (t: Option<&'static str>)
    ensures
        match t {
            Some(n) => role_name(*r) == Some(n@),
            None => role_name(*r) is None,
        },
{
    match r {
        Some(x) => Some(x.wire_name()),
        None => None,
    }
}

/// `{` + the members joined by commas + `}`.
fn object_text(members: &Vec<String>) -> (r: String)
    ensures
        r@ == json_object(texts(members@)),
{
    let mut r = String::new();
    r.append("{");
    let mut i: usize = 0;
    while i < members.len()
        invariant
            i <= members@.len(),
            r@ == "{"@ + json_members(texts(members@).take(i as int)),
        decreases members@.len() - i,
    {
        let ghost before = texts(members@).take(i as int);
        let ghost after = texts(members@).take(i + 1);
        assert(after.drop_last() =~= before);
        if i > 0 {
            r.append(",");
        }
        r.append(members[i].as_str());
        assert(r@ =~= "{"@ + json_members(after)) by {
            if i == 0 {
                assert(before.len() == 0);
                assert(json_members(before) =~= Seq::<char>::empty());
            }
        }
        i = i + 1;
    }
    assert(texts(members@).take(members@.len() as int) =~= texts(members@));
    r.append("}");
    r
}

impl CreateNoteOptions {
    /// The members of the JSON body, in field order, absent fields left out.
    pub open spec fn spec_members(&self) -> Seq<Seq<char>> {
        text_member("title"@, self.title) + text_member("content"@, self.content) + name_member(
            "readPermission"@,
            role_name(self.read_permission),
        ) + name_member("writePermission"@, role_name(self.write_permission)) + name_member(
            "commentPermission"@,
            comment_name(self.comment_permission),
        ) + text_member("permalink"@, self.permalink)
    }

    /// The JSON body of the request, with camelCase keys.
    pub fn to_json(&self) -> (r: Result<String, ApiError>)
        ensures
            r matches Ok(t) && t@ == json_object(self.spec_members()),
    {
        let mut members: Vec<String> = Vec::new();
        assert(texts(members@) =~= Seq::<Seq<char>>::empty());
        push_text_member(&mut members, "title", &self.title)?;
        push_text_member(&mut members, "content", &self.content)?;
        push_name_member(&mut members, "readPermission", role_text(&self.read_permission));
        push_name_member(&mut members, "writePermission", role_text(&self.write_permission));
        let comment = match &self.comment_permission {
            Some(c) => Some(c.wire_name()),
            None => None,
        };
        push_name_member(&mut members, "commentPermission", comment);
        push_text_member(&mut members, "permalink", &self.permalink)?;
        assert(texts(members@) =~= self.spec_members());
        Ok(object_text(&members))
    }
}

impl UpdateNoteOptions {
    /// The members of the JSON body, in field order, absent fields left out.
    pub open spec fn spec_members(&self) -> Seq<Seq<char>> {
        text_member("content"@, self.content) + name_member(
            "readPermission"@,
            role_name(self.read_permission),
        ) + name_member("writePermission"@, role_name(self.write_permission)) + text_member(
            "permalink"@,
            self.permalink,
        )
    }

    /// The JSON body of the request, with camelCase keys.
    pub fn to_json(&self) -> (r: Result<String, ApiError>)
        ensures
            r matches Ok(t) && t@ == json_object(self.spec_members()),
    {
        let mut members: Vec<String> = Vec::new();
        assert(texts(members@) =~= Seq::<Seq<char>>::empty());
        push_text_member(&mut members, "content", &self.content)?;
        push_name_member(&mut members, "readPermission", role_text(&self.read_permission));
        push_name_member(&mut members, "writePermission", role_text(&self.write_permission));
        push_text_member(&mut members, "permalink", &self.permalink)?;
        assert(texts(members@) =~= self.spec_members());
        Ok(object_text(&members))
    }
}

/// Options with only a title encode to an object with the title alone: no
/// other key, and no `null`.
pub proof fn lemma_title_only_json(o: CreateNoteOptions)
    requires
        o.title is Some,
        o.content is None,
        o.read_permission is None,
        o.write_permission is None,
        o.comment_permission is None,
        o.permalink is None,
    ensures
        json_object(o.spec_members()) == "{\"title\":"@ + json_string_of(o.title->0@) + "}"@,
{
    let m = json_member("title"@, json_string_of(o.title->0@));
    assert(o.spec_members() =~= seq![m]);
    assert(json_members(seq![m]) == m);
    assert("{\"title\":"@ =~= "{"@ + "\""@ + "title"@ + "\":"@) by {
        reveal_strlit("{\"title\":");
        reveal_strlit("{");
        reveal_strlit("\"");
        reveal_strlit("title");
        reveal_strlit("\":");
    }
    assert(json_object(o.spec_members()) =~= "{\"title\":"@ + json_string_of(o.title->0@) + "}"@);
}

} // verus!
