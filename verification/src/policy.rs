//! Rules that decide whether a deletion may be propagated between the local
//! directory and the server.

use vstd::prelude::*;

verus! {

/// How the age of an asset (in whole days since its creation date) relates to
/// the range of ages for which deletions may be propagated.
#[derive(Debug, Clone, Copy, PartialEq, Eq, Structural)]
pub enum DeleteAgeEligibility {
    /// The age lies in `0..=delete_max_age`.
    Eligible(i64),
    /// No creation date is recorded.
    MissingCreatedAt,
    /// The creation date lies in the future (negative age).
    FutureCreatedAt(i64),
    /// The age exceeds `delete_max_age`.
    UnrealisticAge(i64),
}

/// The classification of an optional age against `delete_max_age`.
pub open spec fn delete_age_class(age_days: Option<i64>, delete_max_age: i64) -> DeleteAgeEligibility {
    match age_days {
        None => DeleteAgeEligibility::MissingCreatedAt,
        Some(age) => if age < 0 {
            DeleteAgeEligibility::FutureCreatedAt(age)
        } else if age <= delete_max_age {
            DeleteAgeEligibility::Eligible(age)
        } else {
            DeleteAgeEligibility::UnrealisticAge(age)
        },
    }
}

/// Classifies an asset's age: eligible when it lies in `0..=delete_max_age`,
/// otherwise the reason why it is not.
pub fn evaluate_delete_age(age_days: Option<i64>, delete_max_age: i64) -> (r: DeleteAgeEligibility)
    ensures
        r == delete_age_class(age_days, delete_max_age),
        r is Eligible <==> (age_days is Some && 0 <= age_days->0 <= delete_max_age),
        r is MissingCreatedAt <==> age_days is None,
        r is FutureCreatedAt <==> (age_days is Some && age_days->0 < 0),
        r is UnrealisticAge <==> (age_days is Some && 0 <= age_days->0 && age_days->0 > delete_max_age),
        r matches DeleteAgeEligibility::Eligible(a) ==> age_days == Some(a),
        r matches DeleteAgeEligibility::FutureCreatedAt(a) ==> age_days == Some(a),
        r matches DeleteAgeEligibility::UnrealisticAge(a) ==> age_days == Some(a),
{
    match age_days {
        Some(age) => {
            if 0 <= age && age <= delete_max_age {
                DeleteAgeEligibility::Eligible(age)
            } else if age < 0 {
                DeleteAgeEligibility::FutureCreatedAt(age)
            } else {
                DeleteAgeEligibility::UnrealisticAge(age)
            }
        },
        None => DeleteAgeEligibility::MissingCreatedAt,
    }
}

/// A local deletion is propagated to the server only for assets younger than
/// `delete_threshold` days.
pub fn should_propagate_local_delete(age_days: i64, delete_threshold: i64) -> (r: bool)
    ensures
        r == (age_days < delete_threshold),
{
    age_days < delete_threshold
}

} // verus!
