use vstd::prelude::*;
use vstd::string::StrSliceExecFns;

use crate::token::Claims;

verus! {

/// A category as the store holds it, scoped to the shop that owns it.
/// The two timestamps are epoch seconds.
#[derive(Clone, Debug)]
pub struct Category {
    pub id: i64,
    pub shop_id: i64,
    pub name: String,
    pub created_at: i64,
    pub updated_at: i64,
}

/// The fields a category is created from, already bound to its owning
/// shop.
#[derive(Clone, Debug)]
pub struct CreateCategory {
    pub shop_id: i64,
    pub name: String,
}

/// What a caller presents to create a category; the owning shop comes
/// from the authenticated identity, never from the caller.
#[derive(Clone, Debug)]
pub struct CreateCategoryRequest {
    pub name: String,
}

/// The characters of the Unicode White_Space property, the set behind
/// Rust's `char::is_whitespace`: a name consisting of these alone is
/// blank.
pub open spec fn is_blank_char(c: char) -> bool {
    let n = c as u32;
    ||| (0x9 <= n && n <= 0xD)
    ||| n == 0x20
    ||| n == 0x85
    ||| n == 0xA0
    ||| n == 0x1680
    ||| (0x2000 <= n && n <= 0x200A)
    ||| n == 0x2028
    ||| n == 0x2029
    ||| n == 0x202F
    ||| n == 0x205F
    ||| n == 0x3000
}

/// Whether one character is blank.
fn blank_char(c: char) -> (b: bool)
    ensures
        b == is_blank_char(c),
{
    let n = c as u32;
    (0x9 <= n && n <= 0xD) || n == 0x20 || n == 0x85 || n == 0xA0 || n == 0x1680 || (0x2000 <= n
        && n <= 0x200A) || n == 0x2028 || n == 0x2029 || n == 0x202F || n == 0x205F || n == 0x3000
}

/// Whether a category name has any substance: at least one character that
/// is not blank.
pub open spec fn spec_has_substance(name: Seq<char>) -> bool {
    exists|i: int| 0 <= i < name.len() && !is_blank_char(name[i])
}

/// Whether a category name is acceptable: not blank throughout.
pub fn validate_category_name(name: &str) -> (r: bool)
    ensures
        r == spec_has_substance(name@),
{
    let n = name.unicode_len();
    let mut i: usize = 0;
    while i < n
        invariant
            n == name@.len(),
            i <= n,
            forall|j: int| 0 <= j < i ==> is_blank_char(name@[j]),
        decreases n - i,
    {
        let c = name.get_char(i);
        if !blank_char(c) {
            return true;
        }
        i = i + 1;
    }
    false
}

/// The whole request rule: a name of one to fifty characters with at
/// least one non-blank character.
pub open spec fn spec_valid_category_request(name: Seq<char>) -> bool {
    1 <= name.len() <= 50 && spec_has_substance(name)
}

impl CreateCategoryRequest {
    /// Whether the request may proceed to creation.
    pub fn validate(&self) -> (r: bool)
        ensures
            r == spec_valid_category_request(self.name@),
    {
        let n = self.name.unicode_len();
        1 <= n && n <= 50 && validate_category_name(self.name.as_str())
    }
}

impl CreateCategory {
    /// Bind a validated request to the authenticated shop: the new
    /// category belongs to the caller's identity and to nobody else.
    pub fn from_request(request: &CreateCategoryRequest, claims: &Claims) -> (c: Self)
        ensures
            c.shop_id == claims.sub as i64,
            c.name@ == request.name@,
    {
        CreateCategory { shop_id: claims.sub as i64, name: request.name.clone() }
    }
}

impl Category {
    /// Scope a looked-up category to the authenticated shop: a category
    /// owned by another shop is answered exactly as an absent one, so a
    /// caller cannot tell another shop's category from one that does not
    /// exist.
    pub fn scope_to_owner(found: Option<Category>, claims: &Claims) -> (r: Option<Category>)
        ensures
            r matches Some(c) ==> (found matches Some(f) && c == f && c.shop_id
                == claims.sub as i64),
            found is None ==> r is None,
            found matches Some(f) && f.shop_id != claims.sub as i64 ==> r is None,
            found matches Some(f) ==> (f.shop_id == claims.sub as i64 ==> r == Some(f)),
    {
        match found {
            Some(category) => if category.shop_id == claims.sub as i64 {
                Some(category)
            } else {
                None
            },
            None => None,
        }
    }
}

} // verus!
