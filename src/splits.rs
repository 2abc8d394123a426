use vstd::prelude::*;

verus! {

/// The rank a finished run gets from how far the player fell in total,
/// from best to worst.
#[derive(Clone, Copy, Debug, PartialEq, Eq, Structural)]
pub enum Rank {
    SPlus,
    S,
    SMinus,
    APlus,
    A,
    AMinus,
    BPlus,
    B,
    BMinus,
    CPlus,
    C,
    CMinus,
    DPlus,
    D,
    DMinus,
    FPlus,
    F,
}

/// The least distance (in hundreds of units fallen) that gets `r`.
pub open spec fn rank_floor(r: Rank) -> int {
    match r {
        Rank::SPlus => i32::MIN as int,
        Rank::S => 100,
        Rank::SMinus => 300,
        Rank::APlus => 500,
        Rank::A => 800,
        Rank::AMinus => 1200,
        Rank::BPlus => 1800,
        Rank::B => 2500,
        Rank::BMinus => 3500,
        Rank::CPlus => 5000,
        Rank::C => 7000,
        Rank::CMinus => 9500,
        Rank::DPlus => 14000,
        Rank::D => 20000,
        Rank::DMinus => 30000,
        Rank::FPlus => 40000,
        Rank::F => 50000,
    }
}

/// The least distance (in hundreds of units fallen) that gets a worse rank
/// than `r`; past the end of `i32` for the worst one.
pub open spec fn rank_ceiling(r: Rank) -> int {
    match r {
        Rank::SPlus => 100,
        Rank::S => 300,
        Rank::SMinus => 500,
        Rank::APlus => 800,
        Rank::A => 1200,
        Rank::AMinus => 1800,
        Rank::BPlus => 2500,
        Rank::B => 3500,
        Rank::BMinus => 5000,
        Rank::CPlus => 7000,
        Rank::C => 9500,
        Rank::CMinus => 14000,
        Rank::DPlus => 20000,
        Rank::D => 30000,
        Rank::DMinus => 40000,
        Rank::FPlus => 50000,
        Rank::F => i32::MAX as int + 1,
    }
}

/// The rank for a total fall of `hundreds` hundred units: the one whose
/// range holds it.
pub fn rank_for_fall(hundreds: i32) -> (r: Rank)
    ensures
        rank_floor(r) <= hundreds < rank_ceiling(r),
{
    if hundreds < 100 {
        Rank::SPlus
    } else if hundreds < 300 {
        Rank::S
    } else if hundreds < 500 {
        Rank::SMinus
    } else if hundreds < 800 {
        Rank::APlus
    } else if hundreds < 1200 {
        Rank::A
    } else if hundreds < 1800 {
        Rank::AMinus
    } else if hundreds < 2500 {
        Rank::BPlus
    } else if hundreds < 3500 {
        Rank::B
    } else if hundreds < 5000 {
        Rank::BMinus
    } else if hundreds < 7000 {
        Rank::CPlus
    } else if hundreds < 9500 {
        Rank::C
    } else if hundreds < 14000 {
        Rank::CMinus
    } else if hundreds < 20000 {
        Rank::DPlus
    } else if hundreds < 30000 {
        Rank::D
    } else if hundreds < 40000 {
        Rank::DMinus
    } else if hundreds < 50000 {
        Rank::FPlus
    } else {
        Rank::F
    }
}

/// Records the height chunk the player reached: a split is due where it
/// is above every chunk reached before, and then it is the new highest.
pub fn advance_max_chunk(chunk: i32, max_chunk: &mut i32) -> (r: bool)
    ensures
        r == (chunk > *old(max_chunk)),
        *final(max_chunk) == if r {
            chunk
        } else {
            *old(max_chunk)
        },
{
    if chunk > *max_chunk {
        *max_chunk = chunk;
        true
    } else {
        false
    }
}

} // verus!
