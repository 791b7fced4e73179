//! The media reference a catalog row stores, and the snapshot it is derived from. The snapshot is
//! a read-model projection of a Drive resource; the only thing derived from it is the id the row
//! stores, so exactly one function reads `id`.
use vstd::prelude::*;

use crate::contract::{ServiceError, ServiceErrorKind};
use crate::decimal::{integer_literal_value, parse_i128_literal};
use crate::repository::{fails_with, starts_with};
use crate::text::{chars_of, is_blank, string_of, text_eq, trim, trimmed_chars};

verus! {

/// One member of a JSON object: its key, and its text when the value is a JSON string.
#[derive(Clone, Debug)]
pub struct SnapshotMember {
    pub key: String,
    pub text: Option<String>,
}

/// What the identity check reads of a resource snapshot: whether it is a JSON object, and its
/// members in the object's order.
#[derive(Clone, Debug)]
pub struct MediaResourceSnapshot {
    pub is_object: bool,
    pub members: Vec<SnapshotMember>,
}

/// The first member named `key`, if any.
pub open spec fn member_named(members: Seq<SnapshotMember>, key: Seq<char>) -> Option<SnapshotMember>
    decreases members.len(),
{
    if members.len() == 0 {
        None
    } else if members[0].key@ == key {
        Some(members[0])
    } else {
        member_named(members.drop_first(), key)
    }
}

/// The trimmed text of member `key`, when it is a string that is not blank.
pub open spec fn member_text(members: Seq<SnapshotMember>, key: Seq<char>) -> Option<Seq<char>> {
    match member_named(members, key) {
        Some(m) => match m.text {
            Some(t) => if is_blank(t@) {
                None
            } else {
                Some(trim(t@))
            },
            None => None,
        },
        None => None,
    }
}

/// The keys a `MediaResource` declares: `id`, `kind` and `source` are required, the rest
/// optional, and no other key is accepted (the schema is closed).
pub open spec fn declared_media_key(k: Seq<char>) -> bool {
    ||| k == "id"@
    ||| k == "kind"@
    ||| k == "source"@
    ||| k == "url"@
    ||| k == "publicUrl"@
    ||| k == "uri"@
    ||| k == "objectBlobId"@
    ||| k == "fileName"@
    ||| k == "mimeType"@
    ||| k == "sizeBytes"@
    ||| k == "checksum"@
    ||| k == "width"@
    ||| k == "height"@
    ||| k == "durationSeconds"@
    ||| k == "altText"@
    ||| k == "title"@
    ||| k == "poster"@
    ||| k == "thumbnails"@
    ||| k == "variants"@
    ||| k == "access"@
    ||| k == "ai"@
    ||| k == "metadata"@
}

/// The first key, in member order, that a `MediaResource` does not declare.
pub open spec fn first_undeclared_key(members: Seq<SnapshotMember>) -> Option<Seq<char>>
    decreases members.len(),
{
    if members.len() == 0 {
        None
    } else if !declared_media_key(members[0].key@) {
        Some(members[0].key@)
    } else {
        first_undeclared_key(members.drop_first())
    }
}

/// The keys of the `MediaResource` schema: the required `id`, `kind` and `source`, and the
/// optional ones.
pub open spec fn media_resource_schema_keys() -> Set<Seq<char>> {
    set![
        "id"@,
        "kind"@,
        "source"@,
        "url"@,
        "publicUrl"@,
        "uri"@,
        "objectBlobId"@,
        "fileName"@,
        "mimeType"@,
        "sizeBytes"@,
        "checksum"@,
        "width"@,
        "height"@,
        "durationSeconds"@,
        "altText"@,
        "title"@,
        "poster"@,
        "thumbnails"@,
        "variants"@,
        "access"@,
        "ai"@,
        "metadata"@,
    ]
}

/// A snapshot is refused for an undeclared key exactly when one of its keys is outside the
/// `MediaResource` schema, and the key it names is such a key, carried by one of its members.
pub proof fn law_undeclared_keys_are_those_outside_the_schema(members: Seq<SnapshotMember>)
    ensures
        first_undeclared_key(members) is None <==> forall|i: int|
            0 <= i < members.len() ==> media_resource_schema_keys().contains(
                #[trigger] members[i].key@,
            ),
        match first_undeclared_key(members) {
            Some(k) => !media_resource_schema_keys().contains(k) && exists|i: int|
                0 <= i < members.len() && #[trigger] members[i].key@ == k,
            None => true,
        },
    decreases members.len(),
{
    if members.len() > 0 {
        let rest = members.drop_first();
        law_undeclared_keys_are_those_outside_the_schema(rest);
        assert(declared_media_key(members[0].key@) <==> media_resource_schema_keys().contains(
            members[0].key@,
        ));
        assert forall|i: int| 0 <= i < rest.len() implies #[trigger] rest[i] == members[i + 1] by {}
        if declared_media_key(members[0].key@) {
            if first_undeclared_key(rest) is None {
                assert forall|i: int| 0 <= i < members.len() implies media_resource_schema_keys().contains(
                    #[trigger] members[i].key@,
                ) by {
                    if i > 0 {
                        assert(members[i] == rest[i - 1]);
                    }
                }
            } else {
                let k = first_undeclared_key(rest).unwrap();
                let j = choose|j: int| 0 <= j < rest.len() && #[trigger] rest[j].key@ == k;
                assert(members[j + 1].key@ == k);
            }
        }
    }
}

/// The `i64` a literal spells exactly, with no surrounding white space allowed.
pub open spec fn exact_i64(s: Seq<char>) -> Option<i64> {
    match integer_literal_value(s) {
        Some(v) => if i64::MIN <= v <= i64::MAX {
            Some(v as i64)
        } else {
            None
        },
        None => None,
    }
}

/// The message for a member that is not a non-empty string.
pub open spec fn not_text_message(field: Seq<char>, key: Seq<char>) -> Seq<char> {
    field + "."@ + key + " must be a non-empty string"@
}

/// A validation failure naming member `key` of `field` as not a non-empty string.
fn not_text_failure(field: &str, key: &str) -> (e: ServiceError)
    ensures
        e.kind == ServiceErrorKind::Validation,
        e.message@ == not_text_message(field@, key@),
{
    let mut message = String::from_str(field);
    message.append(".");
    message.append(key);
    message.append(" must be a non-empty string");
    ServiceError::validation(message)
}

/// The message for a member a `MediaResource` does not declare.
pub open spec fn undeclared_key_message(field: Seq<char>, key: Seq<char>) -> Seq<char> {
    field + " carries `"@ + key
        + "`, which is not a MediaResource field: the declared schema is closed, so an undeclared key would be dropped rather than stored"@
}

/// What a snapshot identifies, or why it identifies nothing. In order: it must be an object; every
/// key must be declared; `id`, `kind` and `source` must be present; `id` must be a positive int64
/// string; `kind` and `source` must be non-empty strings; and a `drive` resource must carry a
/// `drive://` uri.
pub open spec fn identity_outcome(field: Seq<char>, snapshot: MediaResourceSnapshot) -> Result<
    i64,
    Seq<char>,
> {
    let ms = snapshot.members@;
    if !snapshot.is_object {
        Err(field + " must be a MediaResource object"@)
    } else if first_undeclared_key(ms) is Some {
        Err(undeclared_key_message(field, first_undeclared_key(ms).unwrap()))
    } else if member_named(ms, "id"@) is None {
        Err(field + ".id is required by MediaResource"@)
    } else if member_named(ms, "kind"@) is None {
        Err(field + ".kind is required by MediaResource"@)
    } else if member_named(ms, "source"@) is None {
        Err(field + ".source is required by MediaResource"@)
    } else {
        match member_text(ms, "id"@) {
            None => Err(not_text_message(field, "id"@)),
            Some(raw) => match exact_i64(raw) {
                None => Err(field + ".id must be a decimal int64 string, got `"@ + raw + "`"@),
                Some(id) => if id <= 0 {
                    Err(field + ".id must be a positive snowflake id, got `"@ + raw + "`"@)
                } else if member_text(ms, "kind"@) is None {
                    Err(not_text_message(field, "kind"@))
                } else {
                    match member_text(ms, "source"@) {
                        None => Err(not_text_message(field, "source"@)),
                        Some(source) => if source == "drive"@ {
                            match member_text(ms, "uri"@) {
                                None => Err(
                                    field
                                        + ".uri is required when source is `drive`: the identity of a Drive-backed resource is `drive://spaces/{spaceId}/nodes/{nodeId}`"@,
                                ),
                                Some(uri) => if "drive://"@.is_prefix_of(uri) {
                                    Ok(id)
                                } else {
                                    Err(
                                        field
                                            + ".uri must start with `drive://` when source is `drive`, got `"@
                                            + uri + "`"@,
                                    )
                                },
                            }
                        } else {
                            Ok(id)
                        },
                    }
                },
            },
        }
    }
}

/// The position of the first member named `key`.
fn find_member(members: &Vec<SnapshotMember>, key: &str) -> (r: Option<usize>)
    ensures
        match member_named(members@, key@) {
            None => r is None,
            Some(m) => r matches Some(i) && i < members@.len() && members@[i as int] == m,
        },
{
    let mut i: usize = 0;
    assert(members@.skip(0) =~= members@);
    while i < members.len()
        invariant
            i <= members@.len(),
            member_named(members@, key@) == member_named(members@.skip(i as int), key@),
        decreases members@.len() - i,
    {
        assert(members@.skip(i as int)[0] == members@[i as int]);
        if text_eq(members[i].key.as_str(), key) {
            return Some(i);
        }
        assert(members@.skip(i as int).drop_first() =~= members@.skip(i + 1));
        i = i + 1;
    }
    None
}

/// The trimmed text of member `key`, when it is a non-blank string.
fn member_text_of(members: &Vec<SnapshotMember>, key: &str) -> (r: Option<String>)
    ensures
        match member_text(members@, key@) {
            None => r is None,
            Some(t) => r matches Some(s) && s@ == t,
        },
{
    match find_member(members, key) {
        None => None,
        Some(i) => match &members[i].text {
            Some(t) => {
                let trimmed = trimmed_chars(t.as_str());
                if trimmed.len() == 0 {
                    None
                } else {
                    Some(string_of(&trimmed))
                }
            },
            None => None,
        },
    }
}

/// Whether a `MediaResource` declares the key.
fn is_declared_media_key(k: &str) -> (r: bool)
    ensures
        r == declared_media_key(k@),
{
    text_eq(k, "id") || text_eq(k, "kind") || text_eq(k, "source") || text_eq(k, "url") || text_eq(
        k,
        "publicUrl",
    ) || text_eq(k, "uri") || text_eq(k, "objectBlobId") || text_eq(k, "fileName") || text_eq(
        k,
        "mimeType",
    ) || text_eq(k, "sizeBytes") || text_eq(k, "checksum") || text_eq(k, "width") || text_eq(
        k,
        "height",
    ) || text_eq(k, "durationSeconds") || text_eq(k, "altText") || text_eq(k, "title") || text_eq(
        k,
        "poster",
    ) || text_eq(k, "thumbnails") || text_eq(k, "variants") || text_eq(k, "access") || text_eq(
        k,
        "ai",
    ) || text_eq(k, "metadata")
}

/// A validation failure: `field` followed by a fixed suffix.
fn field_failure(field: &str, suffix: &str) -> (e: ServiceError)
    ensures
        e.kind == ServiceErrorKind::Validation,
        e.message@ == field@ + suffix@,
{
    let mut message = String::from_str(field);
    message.append(suffix);
    ServiceError::validation(message)
}

/// A validation failure: `field`, a fixed text, a quoted value, and a closing backtick.
fn quoting_failure(field: &str, middle: &str, quoted: &str) -> (e: ServiceError)
    ensures
        e.kind == ServiceErrorKind::Validation,
        e.message@ == field@ + middle@ + quoted@ + "`"@,
{
    let mut message = String::from_str(field);
    message.append(middle);
    message.append(quoted);
    message.append("`");
    ServiceError::validation(message)
}

/// Validates a `MediaResource` snapshot and returns the id the row stores.
pub fn media_resource_identity(field: &str, snapshot: &MediaResourceSnapshot) -> (r: Result<
    i64,
    ServiceError,
>)
    ensures
        match identity_outcome(field@, *snapshot) {
            Ok(id) => r == Ok::<i64, ServiceError>(id),
            Err(m) => fails_with(r, ServiceErrorKind::Validation, m),
        },
{
    let members = &snapshot.members;
    if !snapshot.is_object {
        return Err(field_failure(field, " must be a MediaResource object"));
    }
    let mut i: usize = 0;
    assert(members@.skip(0) =~= members@);
    while i < members.len()
        invariant
            i <= members@.len(),
            members == &snapshot.members,
            snapshot.is_object,
            first_undeclared_key(members@) == first_undeclared_key(members@.skip(i as int)),
        decreases members@.len() - i,
    {
        assert(members@.skip(i as int)[0] == members@[i as int]);
        if !is_declared_media_key(members[i].key.as_str()) {
            assert(first_undeclared_key(members@.skip(i as int)) == Some(members@[i as int].key@));
            let mut message = String::from_str(field);
            message.append(" carries `");
            message.append(members[i].key.as_str());
            message.append(
                "`, which is not a MediaResource field: the declared schema is closed, so an undeclared key would be dropped rather than stored",
            );
            assert(message@ =~= undeclared_key_message(field@, members@[i as int].key@));
            return Err(ServiceError::validation(message));
        }
        assert(members@.skip(i as int).drop_first() =~= members@.skip(i + 1));
        i = i + 1;
    }
    assert(members@.skip(i as int).len() == 0);
    assert(first_undeclared_key(members@) is None);
    if find_member(members, "id").is_none() {
        return Err(field_failure(field, ".id is required by MediaResource"));
    }
    if find_member(members, "kind").is_none() {
        return Err(field_failure(field, ".kind is required by MediaResource"));
    }
    if find_member(members, "source").is_none() {
        return Err(field_failure(field, ".source is required by MediaResource"));
    }
    let raw = match member_text_of(members, "id") {
        Some(t) => t,
        None => {
            assert(member_text(members@, "id"@) is None);
            return Err(not_text_failure(field, "id"));
        },
    };
    let parsed = parse_i128_literal(&chars_of(raw.as_str()));
    let id: i64 = match parsed {
        Some(v) => if -9223372036854775808i128 <= v && v <= 9223372036854775807i128 {
            v as i64
        } else {
            return Err(
                quoting_failure(field, ".id must be a decimal int64 string, got `", raw.as_str()),
            );
        },
        None => {
            return Err(
                quoting_failure(field, ".id must be a decimal int64 string, got `", raw.as_str()),
            );
        },
    };
    if id <= 0 {
        return Err(
            quoting_failure(field, ".id must be a positive snowflake id, got `", raw.as_str()),
        );
    }
    if member_text_of(members, "kind").is_none() {
        return Err(not_text_failure(field, "kind"));
    }
    let source = match member_text_of(members, "source") {
        Some(t) => t,
        None => return Err(not_text_failure(field, "source")),
    };
    if text_eq(source.as_str(), "drive") {
        let uri = match member_text_of(members, "uri") {
            Some(t) => t,
            None => {
                return Err(
                    field_failure(
                        field,
                        ".uri is required when source is `drive`: the identity of a Drive-backed resource is `drive://spaces/{spaceId}/nodes/{nodeId}`",
                    ),
                );
            },
        };
        if !starts_with(uri.as_str(), "drive://") {
            return Err(
                quoting_failure(
                    field,
                    ".uri must start with `drive://` when source is `drive`, got `",
                    uri.as_str(),
                ),
            );
        }
    }
    Ok(id)
}

} // verus!
