use vstd::prelude::*;
use crate::model::{MandateStatus, ValidationError};

verus! {

/// Filters of a mandate listing as the caller sent them. Timestamps are
/// seconds since the epoch.
#[derive(Clone, Debug)]
pub struct MandateListConstraints {
    pub limit: Option<i64>,
    pub offset: Option<i64>,
    pub mandate_status: Option<MandateStatus>,
    pub connector: Option<String>,
    pub created_time: Option<i64>,
    pub created_time_lt: Option<i64>,
    pub created_time_gt: Option<i64>,
    pub created_time_lte: Option<i64>,
    pub created_time_gte: Option<i64>,
}

/// The creation-time filter after normalization: either one exact instant
/// or a set of bounds, never both.
#[derive(Clone, Copy, Debug, PartialEq, Eq, Structural)]
pub enum TimeFilter {
    Exact(i64),
    Range { lt: Option<i64>, gt: Option<i64>, lte: Option<i64>, gte: Option<i64> },
}

/// Filters that passed validation, as handed to the query layer.
#[derive(Clone, Debug)]
pub struct NormalizedQuery {
    pub limit: Option<i64>,
    pub offset: Option<i64>,
    pub mandate_status: Option<MandateStatus>,
    pub connector: Option<String>,
    pub created: TimeFilter,
}

impl MandateListConstraints {
    /// A limit is acceptable when it is absent or lies in `1..=max_limit`.
    pub open spec fn limit_in_bounds(self, max_limit: i64) -> bool {
        self.limit.is_none() || (0 < self.limit.unwrap() <= max_limit)
    }

    /// An offset is acceptable when it is absent or not negative.
    pub open spec fn offset_in_bounds(self) -> bool {
        self.offset.is_none() || self.offset.unwrap() >= 0
    }

    /// The creation-time filter the constraints stand for: an exact instant
    /// displaces every bound sent beside it.
    pub open spec fn time_filter(self) -> TimeFilter {
        match self.created_time {
            Some(t) => TimeFilter::Exact(t),
            None => TimeFilter::Range {
                lt: self.created_time_lt,
                gt: self.created_time_gt,
                lte: self.created_time_lte,
                gte: self.created_time_gte,
            },
        }
    }

    /// What `normalize` returns for these constraints under `max_limit`.
    pub open spec fn normalized(self, max_limit: i64) -> Result<NormalizedQuery, ValidationError> {
        if !self.limit_in_bounds(max_limit) {
            Err(ValidationError::OutOfBoundsLimit)
        } else if !self.offset_in_bounds() {
            Err(ValidationError::NegativeOffset)
        } else {
            Ok(
                NormalizedQuery {
                    limit: self.limit,
                    offset: self.offset,
                    mandate_status: self.mandate_status,
                    connector: self.connector,
                    created: self.time_filter(),
                },
            )
        }
    }
}

/// Validates list constraints against the configured maximum page size.
/// The limit is judged before the offset; everything else passes through
/// untouched, except that an exact creation time displaces the bounds.
pub fn normalize(constraints: MandateListConstraints, max_limit: i64) -> (r: Result<
    NormalizedQuery,
    ValidationError,
>)
    ensures
        r == constraints.normalized(max_limit),
        r.is_ok() <==> constraints.limit_in_bounds(max_limit) && constraints.offset_in_bounds(),
        r == Err::<NormalizedQuery, ValidationError>(ValidationError::OutOfBoundsLimit)
            <==> !constraints.limit_in_bounds(max_limit),
        r == Err::<NormalizedQuery, ValidationError>(ValidationError::NegativeOffset)
            <==> constraints.limit_in_bounds(max_limit) && !constraints.offset_in_bounds(),
{
    if let Some(limit) = constraints.limit {
        if limit <= 0 || limit > max_limit {
            return Err(ValidationError::OutOfBoundsLimit);
        }
    }
    if let Some(offset) = constraints.offset {
        if offset < 0 {
            return Err(ValidationError::NegativeOffset);
        }
    }
    let created = match constraints.created_time {
        Some(t) => TimeFilter::Exact(t),
        None => TimeFilter::Range {
            lt: constraints.created_time_lt,
            gt: constraints.created_time_gt,
            lte: constraints.created_time_lte,
            gte: constraints.created_time_gte,
        },
    };
    Ok(
        NormalizedQuery {
            limit: constraints.limit,
            offset: constraints.offset,
            mandate_status: constraints.mandate_status,
            connector: constraints.connector,
            created,
        },
    )
}

/// A zero or negative limit is refused as out of bounds whatever else the
/// constraints hold, and a limit within `1..=max_limit` beside an acceptable
/// offset is kept as it was sent.
pub proof fn lemma_limit_bounds(constraints: MandateListConstraints, max_limit: i64)
    ensures
        constraints.limit.is_some() && constraints.limit.unwrap() <= 0
            ==> constraints.normalized(max_limit) == Err::<NormalizedQuery, ValidationError>(
            ValidationError::OutOfBoundsLimit,
        ),
        constraints.limit.is_some() && 0 < constraints.limit.unwrap() <= max_limit
            && constraints.offset_in_bounds() ==> constraints.normalized(max_limit).is_ok()
            && constraints.normalized(max_limit).unwrap().limit == constraints.limit
            && constraints.normalized(max_limit).unwrap().offset == constraints.offset
            && constraints.normalized(max_limit).unwrap().mandate_status
            == constraints.mandate_status
            && constraints.normalized(max_limit).unwrap().connector == constraints.connector,
{
}

} // verus!
