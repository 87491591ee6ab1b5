use vstd::prelude::*;

verus! {

/// The colour band in which a rating is shown, best first.
#[derive(Debug, Clone, Copy, PartialEq, Eq, Structural)]
pub enum RatingTier {
    Outstanding,
    Excellent,
    Great,
    Good,
    Decent,
    Mixed,
    Poor,
}

/// The band of a rating: each threshold must be strictly exceeded.
pub open spec fn tier_of(rating: u32) -> RatingTier {
    if rating > 90 {
        RatingTier::Outstanding
    } else if rating > 85 {
        RatingTier::Excellent
    } else if rating > 80 {
        RatingTier::Great
    } else if rating > 75 {
        RatingTier::Good
    } else if rating > 70 {
        RatingTier::Decent
    } else if rating > 65 {
        RatingTier::Mixed
    } else {
        RatingTier::Poor
    }
}

pub open spec fn class_of(tier: RatingTier) -> Seq<char> {
    match tier {
        RatingTier::Outstanding => "text-green-400"@,
        RatingTier::Excellent => "text-green-500"@,
        RatingTier::Great => "text-green-600"@,
        RatingTier::Good => "text-yellow-400"@,
        RatingTier::Decent => "text-yellow-500"@,
        RatingTier::Mixed => "text-yellow-600"@,
        RatingTier::Poor => "text-red-400"@,
    }
}

/// The band in which `rating` is shown.
pub fn rating_tier(rating: u32) -> (t: RatingTier)
    ensures
        t == tier_of(rating),
{
    if rating > 90 {
        RatingTier::Outstanding
    } else if rating > 85 {
        RatingTier::Excellent
    } else if rating > 80 {
        RatingTier::Great
    } else if rating > 75 {
        RatingTier::Good
    } else if rating > 70 {
        RatingTier::Decent
    } else if rating > 65 {
        RatingTier::Mixed
    } else {
        RatingTier::Poor
    }
}

impl RatingTier {
    /// The text colour class of this band.
    pub fn color_class(&self) -> (r: &'static str)
        ensures
            r@ == class_of(*self),
    {
        match self {
            RatingTier::Outstanding => "text-green-400",
            RatingTier::Excellent => "text-green-500",
            RatingTier::Great => "text-green-600",
            RatingTier::Good => "text-yellow-400",
            RatingTier::Decent => "text-yellow-500",
            RatingTier::Mixed => "text-yellow-600",
            RatingTier::Poor => "text-red-400",
        }
    }
}

/// A rating on a threshold falls in the band below it.
pub proof fn threshold_belongs_below(rating: u32)
    ensures
        rating == 90 ==> tier_of(rating) == RatingTier::Excellent,
        rating == 85 ==> tier_of(rating) == RatingTier::Great,
        rating == 80 ==> tier_of(rating) == RatingTier::Good,
        rating == 75 ==> tier_of(rating) == RatingTier::Decent,
        rating == 70 ==> tier_of(rating) == RatingTier::Mixed,
        rating == 65 ==> tier_of(rating) == RatingTier::Poor,
{
}

} // verus!
