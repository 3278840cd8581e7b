//! Structural validation of mutation payloads.
//!
//! Every textual field that is present must be non-empty; no trimming is
//! applied, so a whitespace-only value counts as non-empty.  A create
//! payload must bring at least one tag, and every tag entry, on create or
//! update, must itself be non-empty.  Failures are reported per field, in
//! payload order, so a consumer can highlight several fields at once.
//! Validation runs before any store access.

use vstd::prelude::*;
use vstd::string::StringExecFns;
use crate::errors::{DomainError, ErrV, Field, FieldError, FieldErrorV};
use crate::messages::{CreateArticle, CreateV, UpdateArticle, UpdateV};

verus! {

/// The reason attached to every validation failure.
pub open spec fn reason_text() -> Seq<char> {
    "fails validation - cannot be empty"@
}

/// A tag list is acceptable when it has at least one entry and no entry is
/// empty.
pub open spec fn tags_ok(tags: Seq<Seq<char>>) -> bool {
    tags.len() > 0 && forall|i: int| 0 <= i < tags.len() ==> (#[trigger] tags[i]).len() > 0
}

/// A create payload is acceptable when every textual field is non-empty and
/// the tag list is acceptable.
pub open spec fn create_valid(v: CreateV) -> bool {
    v.title.len() > 0 && v.description.len() > 0 && v.body.len() > 0 && tags_ok(v.tag_list)
}

/// The fields of a create payload that fail, in payload order.
pub open spec fn create_error_fields(v: CreateV) -> Seq<Field> {
    (if v.title.len() == 0 {
        seq![Field::Title]
    } else {
        seq![]
    }) + (if v.description.len() == 0 {
        seq![Field::Description]
    } else {
        seq![]
    }) + (if v.body.len() == 0 {
        seq![Field::Body]
    } else {
        seq![]
    }) + (if !tags_ok(v.tag_list) {
        seq![Field::TagList]
    } else {
        seq![]
    })
}

/// Attach the fixed reason to each failing field.
pub open spec fn with_reason(fields: Seq<Field>) -> Seq<FieldErrorV> {
    fields.map_values(|f: Field| FieldErrorV { field: f, reason: reason_text() })
}

/// The error a rejected create payload surfaces.
pub open spec fn create_validation(v: CreateV) -> ErrV {
    ErrV::Validation(with_reason(create_error_fields(v)))
}

/// A present field is acceptable when non-empty; an absent one always is.
pub open spec fn opt_ok(o: Option<Seq<char>>) -> bool {
    match o {
        Some(s) => s.len() > 0,
        None => true,
    }
}

/// An update payload is acceptable when every present field is acceptable.
pub open spec fn update_valid(u: UpdateV) -> bool {
    opt_ok(u.title) && opt_ok(u.description) && opt_ok(u.body) && match u.tag_list {
        Some(t) => tags_ok(t),
        None => true,
    }
}

/// The fields of an update payload that fail, in payload order.
pub open spec fn update_error_fields(u: UpdateV) -> Seq<Field> {
    (if !opt_ok(u.title) {
        seq![Field::Title]
    } else {
        seq![]
    }) + (if !opt_ok(u.description) {
        seq![Field::Description]
    } else {
        seq![]
    }) + (if !opt_ok(u.body) {
        seq![Field::Body]
    } else {
        seq![]
    }) + (match u.tag_list {
        Some(t) => if !tags_ok(t) {
            seq![Field::TagList]
        } else {
            seq![]
        },
        None => seq![],
    })
}

/// The error a rejected update payload surfaces.
pub open spec fn update_validation(u: UpdateV) -> ErrV {
    ErrV::Validation(with_reason(update_error_fields(u)))
}

/// An executable per-entry check of a tag vector decides `tags_ok` of its
/// view.
proof fn lemma_tags_bridge(tags: Seq<String>, flag_all: bool)
    requires
        flag_all == (forall|i: int| 0 <= i < tags.len() ==> (#[trigger] tags[i])@.len() > 0),
    ensures
        tags_ok(tags.map_values(|t: String| t@)) == (tags.len() > 0 && flag_all),
{
    let mapped = tags.map_values(|t: String| t@);
    assert(mapped.len() == tags.len());
    if tags.len() > 0 && flag_all {
        assert forall|i: int| 0 <= i < mapped.len() implies (#[trigger] mapped[i]).len() > 0 by {
            assert(tags[i]@.len() > 0);
            assert(mapped[i] == tags[i]@);
        }
        assert(tags_ok(mapped));
    } else if tags.len() > 0 {
        assert(exists|i: int| 0 <= i < tags.len() && !((#[trigger] tags[i])@.len() > 0));
        let w = choose|i: int| 0 <= i < tags.len() && !((#[trigger] tags[i])@.len() > 0);
        assert(mapped[w] == tags[w]@);
        assert(!tags_ok(mapped));
    } else {
        assert(!tags_ok(mapped));
    }
}

/// Whether every tag entry is non-empty.
fn tags_all_nonempty(tags: &Vec<String>) -> (r: bool)
    ensures
        r == (forall|i: int| 0 <= i < tags@.len() ==> (#[trigger] tags@[i])@.len() > 0),
{
    let n = tags.len();
    let mut i: usize = 0;
    while i < n
        invariant
            i <= n,
            n == tags.len(),
            forall|j: int| 0 <= j < i ==> (#[trigger] tags@[j])@.len() > 0,
        decreases n - i,
    {
        if tags[i].as_str().is_empty() {
            assert(!((tags@[i as int])@.len() > 0));
            return false;
        }
        i += 1;
    }
    true
}

/// One freshly built failure record for `field`.
fn field_error(field: Field) -> (r: FieldError)
    ensures
        r@ == (FieldErrorV { field, reason: reason_text() }),
{
    FieldError { field, reason: String::from_str("fails validation - cannot be empty") }
}

/// Check a create payload; `Ok` exactly when it is acceptable, otherwise the
/// per-field failure list in payload order.
pub fn validate_create(a: &CreateArticle) -> (r: Result<(), DomainError>)
    ensures
        match r {
            Ok(_) => create_valid(a@),
            Err(e) => !create_valid(a@) && e@ == create_validation(a@),
        },
{
    let bad_title = a.title.as_str().is_empty();
    let bad_desc = a.description.as_str().is_empty();
    let bad_body = a.body.as_str().is_empty();
    let all_tags = tags_all_nonempty(&a.tag_list);
    let bad_tags = a.tag_list.len() == 0 || !all_tags;
    proof {
        lemma_tags_bridge(a.tag_list@, all_tags);
        assert(bad_tags == !tags_ok(a@.tag_list));
    }
    if !(bad_title || bad_desc || bad_body || bad_tags) {
        return Ok(());
    }
    let mut errs: Vec<FieldError> = Vec::new();
    if bad_title {
        errs.push(field_error(Field::Title));
    }
    if bad_desc {
        errs.push(field_error(Field::Description));
    }
    if bad_body {
        errs.push(field_error(Field::Body));
    }
    if bad_tags {
        errs.push(field_error(Field::TagList));
    }
    proof {
        assert(errs@.map_values(|e: FieldError| e@) =~= with_reason(create_error_fields(a@)));
    }
    Err(DomainError::Validation(errs))
}

/// Check an update payload; `Ok` exactly when it is acceptable, otherwise
/// the per-field failure list in payload order.
pub fn validate_update(a: &UpdateArticle) -> (r: Result<(), DomainError>)
    ensures
        match r {
            Ok(_) => update_valid(a@),
            Err(e) => !update_valid(a@) && e@ == update_validation(a@),
        },
{
    let bad_title = match &a.title {
        Some(t) => t.as_str().is_empty(),
        None => false,
    };
    let bad_desc = match &a.description {
        Some(t) => t.as_str().is_empty(),
        None => false,
    };
    let bad_body = match &a.body {
        Some(t) => t.as_str().is_empty(),
        None => false,
    };
    let bad_tags = match &a.tag_list {
        Some(tags) => {
            let all_tags = tags_all_nonempty(tags);
            let bad = tags.len() == 0 || !all_tags;
            proof {
                lemma_tags_bridge(tags@, all_tags);
                assert(a@.tag_list == Some(tags@.map_values(|t: String| t@)));
                assert(bad == !tags_ok(a@.tag_list->0));
            }
            bad
        },
        None => false,
    };
    if !(bad_title || bad_desc || bad_body || bad_tags) {
        return Ok(());
    }
    let mut errs: Vec<FieldError> = Vec::new();
    if bad_title {
        errs.push(field_error(Field::Title));
    }
    if bad_desc {
        errs.push(field_error(Field::Description));
    }
    if bad_body {
        errs.push(field_error(Field::Body));
    }
    if bad_tags {
        errs.push(field_error(Field::TagList));
    }
    proof {
        assert(errs@.map_values(|e: FieldError| e@) =~= with_reason(update_error_fields(a@)));
    }
    Err(DomainError::Validation(errs))
}

} // verus!
