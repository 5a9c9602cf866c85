//! The configuration of a segment: its name, the ownership flag and the
//! value that an owner writes first.

use vstd::prelude::*;
use vstd::string::*;
use crate::error::{platform_error, Condition, Platform, ShMemErr, ShMemErrView};
use crate::naming::{decimal, numbered_name, qualified, qualified_name};
use crate::segment::{Phase, Segment, SegmentView};

verus! {

/// The first number that `oorandom`'s 32-bit generator gives when it was made
/// from `seed`.
pub uninterp spec fn first_rand_u32(seed: u64) -> u32;

/// `oorandom::Rand32::new` followed by one `Rand32::rand_u32`: the generator
/// is a pure function of its seed, so the same seed gives the same number.
#[verifier::external_body]
fn first_random(seed: u64) -> (r: u32)
    ensures
        r == first_rand_u32(seed),
{
    oorandom::Rand32::new(seed).rand_u32()
}

/// `getrandom::getrandom` on eight bytes, read as one number: `None` where
/// the operating system gave no randomness. Nothing is known of the number.
#[verifier::external_body]
fn os_seed() -> (r: Option<u64>) {
    let mut seed: [u8; 8] = [0u8; 8];
    match getrandom::getrandom(&mut seed) {
        Ok(()) => Some(u64::from_ne_bytes(seed)),
        Err(_) => None,
    }
}

/// What a configuration holds.
pub struct ShMemCfgView<T> {
    pub platform: Platform,
    pub owner: bool,
    pub file_name: Seq<char>,
    pub init_value: Option<T>,
}

/// Configures a shared memory region. A fresh configuration has a numbered
/// name and is not the owner of the backing object.
pub struct ShMemCfg<T> {
    platform: Platform,
    owner: bool,
    file_name: String,
    init_value: Option<T>,
}

impl<T> View for ShMemCfg<T> {
    type V = ShMemCfgView<T>;

    closed spec fn view(&self) -> ShMemCfgView<T> {
        ShMemCfgView {
            platform: self.platform,
            owner: self.owner,
            file_name: self.file_name@,
            init_value: self.init_value,
        }
    }
}

/// The configuration that a platform and a number give: a numbered name, no
/// ownership, no initial value.
pub open spec fn fresh<T>(platform: Platform, number: u32) -> ShMemCfgView<T> {
    ShMemCfgView {
        platform,
        owner: false,
        file_name: qualified(platform, decimal(number as nat)),
        init_value: None,
    }
}

/// The error that stands for a failure to get randomness.
pub open spec fn no_randomness(platform: Platform) -> ShMemErrView {
    ShMemErrView {
        unix: platform.is_unix_spec(),
        condition: Condition::Other,
        message: "Error on getrandom!"@,
    }
}

impl<T> ShMemCfg<T> {
    /// A fresh configuration whose name carries `number`.
    pub fn with_number(platform: Platform, number: u32) -> (cfg: Self)
        ensures
            cfg@ == fresh::<T>(platform, number),
    {
        ShMemCfg {
            platform,
            owner: false,
            file_name: numbered_name(platform, number),
            init_value: None,
        }
    }

    /// A fresh configuration whose name carries the first number of the
    /// generator seeded with `seed`.
    pub fn with_seed(platform: Platform, seed: u64) -> (cfg: Self)
        ensures
            cfg@ == fresh::<T>(platform, first_rand_u32(seed)),
    {
        Self::with_number(platform, first_random(seed))
    }

    /// A fresh configuration from what the operating system gave as a seed:
    /// without a seed there is no configuration.
    pub fn from_seed(platform: Platform, seed: Option<u64>) -> (r: Result<Self, ShMemErr>)
        ensures
            match seed {
                Some(s) => r is Ok && r->Ok_0@ == fresh::<T>(platform, first_rand_u32(s)),
                None => r is Err && r->Err_0@ == no_randomness(platform),
            },
    {
        match seed {
            Some(s) => Ok(Self::with_seed(platform, s)),
            None => Err(
                platform_error(platform, Condition::Other, String::from_str("Error on getrandom!")),
            ),
        }
    }

    /// A fresh configuration with a randomly numbered name. The seed comes
    /// from the operating system, so two calls may differ.
    pub fn generate(platform: Platform) -> (r: Result<Self, ShMemErr>)
        ensures
            match r {
                Ok(cfg) => exists|seed: u64| cfg@ == fresh::<T>(platform, first_rand_u32(seed)),
                Err(e) => e@ == no_randomness(platform),
            },
    {
        Self::from_seed(platform, os_seed())
    }

    /// Names the segment: the platform's namespace marker goes in front of
    /// `name`, whatever name the configuration had before.
    pub fn on_file(self, name: &str) -> (cfg: Self)
        ensures
            cfg@ == (ShMemCfgView { file_name: qualified(self@.platform, name@), ..self@ }),
    {
        let file_name = qualified_name(self.platform, name);
        ShMemCfg {
            platform: self.platform,
            owner: self.owner,
            file_name,
            init_value: self.init_value,
        }
    }

    /// Makes this configuration the owner of the backing object. Only one
    /// live segment of a name may be its owner, or the object is destroyed
    /// twice.
    pub fn set_owner(self) -> (cfg: Self)
        ensures
            cfg@ == (ShMemCfgView { owner: true, ..self@ }),
    {
        ShMemCfg {
            platform: self.platform,
            owner: true,
            file_name: self.file_name,
            init_value: self.init_value,
        }
    }

    /// Makes this configuration the owner of the backing object, in place,
    /// and hands it back for the next setting.
    pub fn owner(&mut self) -> (cfg: &mut Self)
        ensures
            cfg@ == (ShMemCfgView { owner: true, ..old(self)@ }),
            *final(self) == *final(cfg),
    {
        self.owner = true;
        self
    }

    /// Sets the value that an owner writes first. Without it the owner
    /// writes the type's default value.
    pub fn with_initial_value(self, init: T) -> (cfg: Self)
        ensures
            cfg@ == (ShMemCfgView { init_value: Some(init), ..self@ }),
    {
        ShMemCfg {
            platform: self.platform,
            owner: self.owner,
            file_name: self.file_name,
            init_value: Some(init),
        }
    }

    /// The platform that the segment is for.
    pub fn platform(&self) -> (p: Platform)
        ensures
            p == self@.platform,
    {
        self.platform
    }

    /// Whether the segment will own the backing object.
    pub fn is_owner(&self) -> (o: bool)
        ensures
            o == self@.owner,
    {
        self.owner
    }

    /// The platform-qualified name of the backing object.
    pub fn file_name(&self) -> (n: &str)
        ensures
            n@ == self@.file_name,
    {
        self.file_name.as_str()
    }

    /// The value that an owner writes first, where one was set.
    pub fn initial_value(&self) -> (v: &Option<T>)
        ensures
            *v == self@.init_value,
    {
        &self.init_value
    }

    /// Starts the construction of a segment with this configuration: the
    /// segment is idle, holds no descriptor and no mapping, and will map
    /// exactly the bytes of one `T`.
    pub fn build(self) -> (segment: Segment<T>)
        ensures
            segment@ == (SegmentView {
                platform: self@.platform,
                file_name: self@.file_name,
                owner: self@.owner,
                init_value: self@.init_value,
                size: vstd::layout::size_of_as_usize::<T>(),
                phase: Phase::Idle,
                handle: 0,
                address: 0,
            }),
            segment@.size as nat == vstd::layout::size_of::<T>(),
            segment@.well_formed(),
    {
        Segment::idle(
            self.platform,
            self.file_name,
            self.owner,
            self.init_value,
            core::mem::size_of::<T>(),
        )
    }
}

} // verus!
