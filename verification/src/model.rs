//! Types that model the stock domain.

use vstd::prelude::*;

pub mod ticker;

verus! {

/// `uuid::Uuid`, the 128-bit identifier of an account or of a game-client identity. The
/// library hands such values on and never looks inside.
#[verifier::external_type_specification]
#[verifier::external_body]
pub struct ExUuid(uuid::Uuid);

/// `rust_decimal::Decimal`, the type of a balance or a price. The library hands such values
/// on and never looks inside.
#[verifier::external_type_specification]
#[verifier::external_body]
pub struct ExDecimal(rust_decimal::Decimal);

/// `chrono::NaiveDateTime`, a date and time without a zone; the library reads it as UTC and
/// hands it on.
#[verifier::external_type_specification]
#[verifier::external_body]
pub struct ExNaiveDateTime(chrono::NaiveDateTime);

/// What is known about an account.
#[derive(Debug, Clone, Copy)]
pub struct UserInfo {
    /// The internal id of the account.
    pub id: uuid::Uuid,
    /// The balance of the account.
    pub balance: rust_decimal::Decimal,
    /// When the account was created, in UTC.
    pub created_at: chrono::NaiveDateTime,
    /// The linked game-client identity.
    pub mc_id: Option<uuid::Uuid>,
    /// The linked chat identity, never zero.
    pub disc_id: Option<u64>,
}

/// An offset/limit cursor over an ordered collection.
///
/// The limit is at least one, always: whatever smaller limit is asked for, at construction
/// or later, becomes one. The offset is taken as it is, negative or not. Both fields can be
/// moved after construction.
#[derive(Debug, Clone, Copy)]
pub struct Pager {
    offset: i64,
    limit: i64,
}

impl Pager {
    /// The limit that a pager asked for `limit` ends up with: `limit` itself, or one if it is
    /// not positive.
    pub open spec fn clamp_limit(limit: i64) -> i64 {
        if limit < 1 {
            1
        } else {
            limit
        }
    }

    /// The offset, for contracts.
    pub closed spec fn spec_offset(&self) -> i64 {
        self.offset
    }

    /// The limit, for contracts.
    pub closed spec fn spec_limit(&self) -> i64 {
        self.limit
    }

    /// Whether the value is a pager: its limit is at least one.
    pub closed spec fn wf(&self) -> bool {
        self.limit >= 1
    }

    #[verifier::type_invariant]
    spec fn inv(self) -> bool {
        self.wf()
    }

    /// A pager's limit is at least one.
    pub proof fn lemma_limit_positive(self)
        requires
            self.wf(),
        ensures
            self.spec_limit() >= 1,
    {
    }

    /// Creates a pager. The offset is taken as it is, negative or not; the limit is raised to
    /// one if it is smaller.
    #[must_use]
    pub fn new(offset: i64, limit: i64) -> (p: Self)
        ensures
            p.spec_offset() == offset,
            p.spec_limit() == Self::clamp_limit(limit),
            limit <= 0 ==> p.spec_limit() == 1,
            limit >= 1 ==> p.spec_limit() == limit,
            p.wf(),
    {
        Self { offset, limit: if limit < 1 { 1 } else { limit } }
    }

    /// The offset.
    #[must_use]
    #[verifier::when_used_as_spec(spec_offset)]
    pub fn offset(&self) -> (v: i64)
        ensures
            v == self.spec_offset(),
    {
        self.offset
    }

    /// The limit.
    #[must_use]
    #[verifier::when_used_as_spec(spec_limit)]
    pub fn limit(&self) -> (v: i64)
        ensures
            v == self.spec_limit(),
            v >= 1,
    {
        proof {
            use_type_invariant(self);
        }
        self.limit
    }

    /// Moves the offset by `v`. The sum has to fit.
    pub fn add_offset(&mut self, v: i64)
        requires
            i64::MIN <= old(self).spec_offset() + v <= i64::MAX,
        ensures
            final(self).spec_offset() == old(self).spec_offset() + v,
            final(self).spec_limit() == old(self).spec_limit(),
            final(self).wf(),
    {
        proof {
            use_type_invariant(&*self);
        }
        self.offset = self.offset + v;
    }

    /// Moves the limit by `v`, and not below one: a sum that is smaller becomes one. The sum
    /// has to fit.
    pub fn add_limit(&mut self, v: i64)
        requires
            old(self).spec_limit() + v <= i64::MAX,
        ensures
            old(self).spec_limit() + v >= 1 ==> final(self).spec_limit() == old(self).spec_limit()
                + v,
            old(self).spec_limit() + v < 1 ==> final(self).spec_limit() == 1,
            final(self).spec_limit() >= 1,
            final(self).spec_offset() == old(self).spec_offset(),
            final(self).wf(),
    {
        proof {
            use_type_invariant(&*self);
        }
        let sum = self.limit + v;
        self.limit = if sum < 1 {
            1
        } else {
            sum
        };
    }

    /// Sets the offset.
    pub fn set_offset(&mut self, v: i64)
        ensures
            final(self).spec_offset() == v,
            final(self).spec_limit() == old(self).spec_limit(),
            final(self).wf(),
    {
        proof {
            use_type_invariant(&*self);
        }
        self.offset = v;
    }

    /// Sets the limit to `v`, or to one if `v` is smaller.
    pub fn set_limit(&mut self, v: i64)
        ensures
            final(self).spec_limit() == Self::clamp_limit(v),
            final(self).spec_limit() >= 1,
            final(self).spec_offset() == old(self).spec_offset(),
            final(self).wf(),
    {
        self.limit = if v < 1 {
            1
        } else {
            v
        };
    }
}

} // verus!
