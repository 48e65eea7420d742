//! Normalizing a request to remember something into a memory record.
use crate::clock::{is_utc_timestamp_text, is_uuid_v4_text, new_id, now_rfc3339};
use crate::dto::{MemorySaveRequest, TagItem, TagsInput};
use crate::error::{is_request_error, AppError, AppResult};
use crate::memory::db::{clamp, MemoryRecord};
use crate::text::{
    concat_str, join, join_strings, opt_view, owned, spec_to_lowercase, str_eq, to_lowercase, trim,
    trim_str,
};
use vstd::prelude::*;

verus! {

/// The lowercase form of `v` trimmed.
pub open spec fn lower_trim(v: Seq<char>) -> Seq<char> {
    spec_to_lowercase(trim(v))
}

/// `lower_trim` of an optional text.
pub open spec fn lower_trim_opt(o: Option<Seq<char>>) -> Option<Seq<char>> {
    match o {
        Some(v) => Some(lower_trim(v)),
        None => None,
    }
}

/// The kind of a memory: the normalized kind if non-empty, else the
/// normalized key if non-empty, else "note".
pub open spec fn spec_pick_kind(kind: Option<Seq<char>>, key: Option<Seq<char>>) -> Seq<char> {
    match kind {
        Some(k) if k.len() > 0 => k,
        _ => match key {
            Some(k) if k.len() > 0 => k,
            _ => "note"@,
        },
    }
}

/// The content of a memory: the trimmed content if non-empty; otherwise
/// "key: value" from the trimmed key and value if both are non-empty; otherwise
/// the trimmed value if there is no key and the value is non-empty; otherwise
/// nothing (the request is refused).
pub open spec fn spec_resolve_content(
    content: Option<Seq<char>>,
    key: Option<Seq<char>>,
    value: Option<Seq<char>>,
) -> Option<Seq<char>> {
    if content is Some && trim(content->0).len() > 0 {
        Some(trim(content->0))
    } else {
        match (key, value) {
            (Some(k), Some(v)) => if trim(k).len() > 0 && trim(v).len() > 0 {
                Some(trim(k) + ": "@ + trim(v))
            } else {
                None
            },
            (None, Some(v)) => if trim(v).len() > 0 {
                Some(trim(v))
            } else {
                None
            },
            _ => None,
        }
    }
}

/// A trimmed text if it is not empty.
pub open spec fn non_blank(v: Seq<char>) -> Option<Seq<char>> {
    if trim(v).len() > 0 {
        Some(trim(v))
    } else {
        None
    }
}

/// The text a tag-list entry contributes, if any.
pub open spec fn tag_item_text(item: TagItem) -> Option<Seq<char>> {
    match item {
        TagItem::Text(v) => non_blank(v@),
        TagItem::Json(j) => Some(j@),
    }
}

/// The texts a tag list contributes, in order.
pub open spec fn tag_texts(items: Seq<TagItem>) -> Seq<Seq<char>>
    decreases items.len(),
{
    if items.len() == 0 {
        seq![]
    } else {
        let rest = tag_texts(items.drop_last());
        match tag_item_text(items.last()) {
            Some(t) => rest.push(t),
            None => rest,
        }
    }
}

/// The stored tags: a text tag trimmed; a list joined by "," from its
/// non-blank texts (trimmed) and other values (in JSON form); any other value
/// in JSON form; nothing when the result would be empty.
pub open spec fn spec_normalize_tags(tags: Option<TagsInput>) -> Option<Seq<char>> {
    match tags {
        None => None,
        Some(TagsInput::Text(v)) => non_blank(v@),
        Some(TagsInput::List(items)) => {
            let j = join(tag_texts(items@), ","@);
            if j.len() > 0 {
                Some(j)
            } else {
                None
            }
        },
        Some(TagsInput::Json(j)) => Some(j@),
    }
}

/// The importance a memory gets when none is given: 5 for names, style and
/// preferences, 4 for user or style scope, 3 otherwise.
pub open spec fn spec_default_importance(scope: Seq<char>, kind: Seq<char>) -> i64 {
    if kind == "preferred_name"@ || kind == "name"@ || kind == "style"@ || kind == "preference"@ {
        5
    } else if scope == "user"@ || scope == "style"@ {
        4
    } else {
        3
    }
}

/// The importance stored: the given or default one, clamped to `[1, 5]`.
pub open spec fn spec_importance(given: Option<i64>, scope: Seq<char>, kind: Seq<char>) -> int {
    clamp(
        match given {
            Some(i) => i as int,
            None => spec_default_importance(scope, kind) as int,
        },
        1,
        5,
    )
}

/// The record stored for a request, given its id and time stamp; `None` when
/// the request is refused.
pub open spec fn memory_record_ok(
    r: MemoryRecord,
    req: MemorySaveRequest,
    id: Seq<char>,
    now: Seq<char>,
) -> bool {
    let scope = lower_trim(req.scope@);
    let kind = spec_pick_kind(lower_trim_opt(opt_view(req.kind)), lower_trim_opt(opt_view(req.key)));
    &&& r.id@ == id
    &&& r.scope@ == scope
    &&& opt_view(r.project_id) == match req.project_id {
        Some(p) => non_blank(p@),
        None => None,
    }
    &&& r.kind@ == kind
    &&& Some(r.content@) == spec_resolve_content(opt_view(req.content), opt_view(req.key), opt_view(req.value))
    &&& opt_view(r.tags) == spec_normalize_tags(req.tags)
    &&& r.importance == spec_importance(req.importance, scope, kind)
    &&& r.created_at@ == now
    &&& r.updated_at@ == now
}

/// The request is refused: its scope is blank once normalized, or it has no
/// usable content.
pub open spec fn memory_request_refused(req: MemorySaveRequest) -> bool {
    lower_trim(req.scope@).len() == 0 || spec_resolve_content(
        opt_view(req.content),
        opt_view(req.key),
        opt_view(req.value),
    ) is None
}

/// The error a refused request gets: the empty scope first, then the content.
pub open spec fn memory_refusal_ok(e: AppError, req: MemorySaveRequest) -> bool {
    if lower_trim(req.scope@).len() == 0 {
        is_request_error(e, "scope"@ + " cannot be empty"@)
    } else {
        is_request_error(e, "memory requires either non-empty content or key/value"@)
    }
}

/// A required field given its lowercased, trimmed text: refused when empty.
pub fn check_required(field: &str, lowered: String) -> (r: AppResult<String>)
    ensures
        lowered@.len() == 0 ==> (r matches Err(e) && is_request_error(e, field@ + " cannot be empty"@)),
        lowered@.len() > 0 ==> (r matches Ok(s) && s@ == lowered@),
{
    if lowered.as_str().is_empty() {
        let mut m = owned(field);
        m.append(" cannot be empty");
        Err(AppError::Request(m))
    } else {
        Ok(lowered)
    }
}

/// A required field: trimmed and lowercased, refused when that is empty.
pub fn normalize_required(field: &str, value: &str) -> (r: AppResult<String>)
    ensures
        lower_trim(value@).len() == 0 ==> (r matches Err(e) && is_request_error(
            e,
            field@ + " cannot be empty"@,
        )),
        lower_trim(value@).len() > 0 ==> (r matches Ok(s) && s@ == lower_trim(value@)),
{
    let t = trim_str(value);
    let lowered = to_lowercase(t.as_str());
    check_required(field, lowered)
}

/// The kind of a memory from the already normalized kind and key.
pub fn pick_kind(kind: Option<String>, key: Option<String>) -> (r: String)
    ensures
        r@ == spec_pick_kind(opt_view(kind), opt_view(key)),
{
    match kind {
        Some(k) if !k.as_str().is_empty() => k,
        _ => match key {
            Some(k) if !k.as_str().is_empty() => k,
            _ => owned("note"),
        },
    }
}

fn lower_trim_exec(v: &str) -> (r: String)
    ensures
        r@ == lower_trim(v@),
{
    let t = trim_str(v);
    to_lowercase(t.as_str())
}

/// The kind of a memory: its kind, else its key, normalized; else "note".
pub fn normalize_kind(kind: Option<String>, key: Option<&str>) -> (r: String)
    ensures
        r@ == spec_pick_kind(
            lower_trim_opt(opt_view(kind)),
            lower_trim_opt(
                match key {
                    Some(k) => Some(k@),
                    None => None,
                },
            ),
        ),
{
    let k = match kind {
        Some(v) => Some(lower_trim_exec(v.as_str())),
        None => None,
    };
    let y = match key {
        Some(v) => Some(lower_trim_exec(v)),
        None => None,
    };
    pick_kind(k, y)
}

/// The content of a memory, from its content or its key and value.
pub fn resolve_content(content: Option<String>, key: Option<&str>, value: Option<&str>) -> (r:
    AppResult<String>)
    ensures
        ({
            let expected = spec_resolve_content(
                opt_view(content),
                match key {
                    Some(k) => Some(k@),
                    None => None,
                },
                match value {
                    Some(v) => Some(v@),
                    None => None,
                },
            );
            match expected {
                Some(c) => r matches Ok(s) && s@ == c,
                None => r matches Err(e) && is_request_error(
                    e,
                    "memory requires either non-empty content or key/value"@,
                ),
            }
        }),
{
    if let Some(raw) = content {
        let t = trim_str(raw.as_str());
        if !t.as_str().is_empty() {
            return Ok(t);
        }
    }
    match (key, value) {
        (Some(k), Some(v)) => {
            let tk = trim_str(k);
            let tv = trim_str(v);
            if !tk.as_str().is_empty() && !tv.as_str().is_empty() {
                let mut s = concat_str(tk.as_str(), ": ");
                s.append(tv.as_str());
                return Ok(s);
            }
        },
        (None, Some(v)) => {
            let tv = trim_str(v);
            if !tv.as_str().is_empty() {
                return Ok(tv);
            }
        },
        _ => {},
    }
    Err(AppError::Request(owned("memory requires either non-empty content or key/value")))
}

fn non_blank_exec(v: &str) -> (r: Option<String>)
    ensures
        opt_view(r) == non_blank(v@),
{
    let t = trim_str(v);
    if t.as_str().is_empty() {
        None
    } else {
        Some(t)
    }
}

/// The stored form of a memory's tags.
pub fn normalize_tags(tags: Option<TagsInput>) -> (r: Option<String>)
    ensures
        opt_view(r) == spec_normalize_tags(tags),
{
    match tags {
        None => None,
        Some(TagsInput::Text(v)) => non_blank_exec(v.as_str()),
        Some(TagsInput::Json(j)) => Some(j),
        Some(TagsInput::List(items)) => {
            let mut parts: Vec<String> = Vec::new();
            let mut i: usize = 0;
            while i < items.len()
                invariant
                    i <= items.len(),
                    parts@.map_values(|p: String| p@) == tag_texts(items@.take(i as int)),
                decreases items.len() - i,
            {
                assert(items@.take(i + 1).drop_last() =~= items@.take(i as int));
                assert(items@.take(i + 1).last() == items@[i as int]);
                let ghost before = parts@;
                let piece = match &items[i] {
                    TagItem::Text(v) => non_blank_exec(v.as_str()),
                    TagItem::Json(j) => Some(owned(j.as_str())),
                };
                match piece {
                    Some(p) => {
                        parts.push(p);
                        assert(parts@.map_values(|p: String| p@) =~= before.map_values(
                            |p: String| p@,
                        ).push(parts@.last()@));
                    },
                    None => {},
                }
                i += 1;
            }
            assert(items@.take(items@.len() as int) =~= items@);
            let joined = join_strings(&parts, ",");
            if joined.as_str().is_empty() {
                None
            } else {
                Some(joined)
            }
        },
    }
}

/// The importance a memory gets when none is given.
pub fn default_importance(scope: &str, kind: &str) -> (r: i64)
    ensures
        r == spec_default_importance(scope@, kind@),
{
    if str_eq(kind, "preferred_name") || str_eq(kind, "name") || str_eq(kind, "style") || str_eq(
        kind,
        "preference",
    ) {
        5
    } else if str_eq(scope, "user") || str_eq(scope, "style") {
        4
    } else {
        3
    }
}

/// The record to store for a request, given a fresh id and the current time.
pub fn build_memory_record(req: MemorySaveRequest, id: String, now: String) -> (r: AppResult<
    MemoryRecord,
>)
    ensures
        memory_request_refused(req) ==> (r matches Err(e) && memory_refusal_ok(e, req)),
        !memory_request_refused(req) ==> (r matches Ok(m) && memory_record_ok(m, req, id@, now@)),
{
    let scope = normalize_required("scope", req.scope.as_str())?;
    let kind = normalize_kind(
        req.kind,
        match &req.key {
            Some(k) => Some(k.as_str()),
            None => None,
        },
    );
    let content = resolve_content(
        req.content,
        match &req.key {
            Some(k) => Some(k.as_str()),
            None => None,
        },
        match &req.value {
            Some(v) => Some(v.as_str()),
            None => None,
        },
    )?;
    let tags = normalize_tags(req.tags);
    let given = match req.importance {
        Some(i) => i,
        None => default_importance(scope.as_str(), kind.as_str()),
    };
    let importance = if given < 1 {
        1
    } else if given > 5 {
        5
    } else {
        given
    };
    let project_id = match req.project_id {
        Some(p) => non_blank_exec(p.as_str()),
        None => None,
    };
    let created_at = owned(now.as_str());
    Ok(
        MemoryRecord {
            id,
            scope,
            project_id,
            kind,
            content,
            tags,
            importance,
            created_at,
            updated_at: now,
        },
    )
}

/// The record to store for a request, with a fresh id and the current time.
pub fn prepare_memory(req: MemorySaveRequest) -> (r: AppResult<MemoryRecord>)
    ensures
        memory_request_refused(req) ==> (r matches Err(e) && memory_refusal_ok(e, req)),
        !memory_request_refused(req) ==> (r matches Ok(m) && memory_record_ok(
            m,
            req,
            m.id@,
            m.created_at@,
        ) && is_uuid_v4_text(m.id@) && is_utc_timestamp_text(m.created_at@)),
{
    let id = new_id();
    let now = now_rfc3339();
    build_memory_record(req, id, now)
}

/// A stored memory's importance is always between 1 and 5.
pub proof fn lemma_importance_in_range(given: Option<i64>, scope: Seq<char>, kind: Seq<char>)
    ensures
        1 <= spec_importance(given, scope, kind) <= 5,
{
}

/// Content resolved for a memory is never empty.
pub proof fn lemma_resolved_content_nonempty(
    content: Option<Seq<char>>,
    key: Option<Seq<char>>,
    value: Option<Seq<char>>,
)
    ensures
        spec_resolve_content(content, key, value) matches Some(c) ==> c.len() > 0,
{
}

/// The default importance by kind and scope: 5 for a memory of kind
/// preferred_name, name, style or preference, whatever its scope; otherwise 4
/// in the user and style scopes, and 3 elsewhere. A request without an
/// importance is stored with that default.
pub proof fn lemma_default_importance_by_kind(scope: Seq<char>, kind: Seq<char>)
    ensures
        kind == "preferred_name"@ ==> spec_default_importance(scope, kind) == 5,
        kind == "name"@ ==> spec_default_importance(scope, kind) == 5,
        kind == "style"@ ==> spec_default_importance(scope, kind) == 5,
        kind == "preference"@ ==> spec_default_importance(scope, kind) == 5,
        kind != "preferred_name"@ && kind != "name"@ && kind != "style"@ && kind != "preference"@
            ==> spec_default_importance(scope, kind) == if scope == "user"@ || scope == "style"@ {
            4i64
        } else {
            3i64
        },
        spec_importance(None, scope, kind) == spec_default_importance(scope, kind) as int,
{
}

/// What a stored memory holds, field by field: its id and both time stamps
/// as given; the scope trimmed and lowercased; the kind given (trimmed and
/// lowercased) when not blank, else the key so normalized when not blank,
/// else "note"; the content given (trimmed) when not blank, else
/// "key: value" from the trimmed key and value, else the trimmed value when
/// no key is given; the given importance clamped to 1..5, else the default
/// for its scope and kind; the project trimmed, dropped when blank; a text
/// tag trimmed (dropped when blank) and a JSON tag as sent.
pub proof fn lemma_memory_record_fields(r: MemoryRecord, req: MemorySaveRequest, id: Seq<char>, now: Seq<char>)
    requires
        memory_record_ok(r, req, id, now),
    ensures
        r.id@ == id && r.created_at@ == now && r.updated_at@ == now,
        r.scope@ == spec_to_lowercase(trim(req.scope@)),
        match req.kind {
            Some(k) if spec_to_lowercase(trim(k@)).len() > 0 => r.kind@ == spec_to_lowercase(trim(k@)),
            _ => match req.key {
                Some(k) if spec_to_lowercase(trim(k@)).len() > 0 => r.kind@ == spec_to_lowercase(
                    trim(k@),
                ),
                _ => r.kind@ == "note"@,
            },
        },
        match req.content {
            Some(c) if trim(c@).len() > 0 => r.content@ == trim(c@),
            _ => match (req.key, req.value) {
                (Some(k), Some(v)) => r.content@ == trim(k@) + ": "@ + trim(v@) && trim(k@).len()
                    > 0 && trim(v@).len() > 0,
                (None, Some(v)) => r.content@ == trim(v@) && trim(v@).len() > 0,
                _ => false,
            },
        },
        match req.importance {
            Some(i) => r.importance == if i < 1 {
                1
            } else if i > 5 {
                5
            } else {
                i
            },
            None => r.importance == spec_default_importance(r.scope@, r.kind@),
        },
        match req.project_id {
            Some(p) => if trim(p@).len() > 0 {
                r.project_id matches Some(q) && q@ == trim(p@)
            } else {
                r.project_id is None
            },
            None => r.project_id is None,
        },
        match req.tags {
            None => r.tags is None,
            Some(TagsInput::Text(v)) => if trim(v@).len() > 0 {
                r.tags matches Some(t) && t@ == trim(v@)
            } else {
                r.tags is None
            },
            Some(TagsInput::Json(j)) => r.tags matches Some(t) && t@ == j@,
            Some(TagsInput::List(_)) => true,
        },
{
    lemma_default_importance_by_kind(r.scope@, r.kind@);
}

/// Which requests are refused, and with which error: a scope that is blank
/// once trimmed and lowercased ("scope cannot be empty"), checked first;
/// then a request with no non-blank content, no non-blank key and value
/// pair, and no non-blank value without a key ("memory requires either
/// non-empty content or key/value").
pub proof fn lemma_memory_refusals(req: MemorySaveRequest, e: AppError)
    ensures
        memory_request_refused(req) == (spec_to_lowercase(trim(req.scope@)).len() == 0 || !(
        match req.content {
            Some(c) => trim(c@).len() > 0,
            None => false,
        } || match (req.key, req.value) {
            (Some(k), Some(v)) => trim(k@).len() > 0 && trim(v@).len() > 0,
            (None, Some(v)) => trim(v@).len() > 0,
            _ => false,
        })),
        memory_refusal_ok(e, req) ==> (e matches AppError::Request(m) && if spec_to_lowercase(
            trim(req.scope@),
        ).len() == 0 {
            m@ == "scope cannot be empty"@
        } else {
            m@ == "memory requires either non-empty content or key/value"@
        }),
{
    reveal_strlit("scope");
    reveal_strlit(" cannot be empty");
    reveal_strlit("scope cannot be empty");
    assert("scope"@ + " cannot be empty"@ =~= "scope cannot be empty"@);
}

} // verus!
