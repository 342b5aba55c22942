//! A user's stored record: money, level and experience.

use vstd::prelude::*;
use crate::database::RedisKey;

verus! {

/// A user's record together with its key in the store.
#[derive(Debug, Clone)]
pub struct Anima {
    key: String,
    pub money: u32,
    pub level: u32,
    pub exp: u32,
}

/// The record as (key, money, level, experience).
impl View for Anima {
    type V = (Seq<char>, u32, u32, u32);

    closed spec fn view(&self) -> (Seq<char>, u32, u32, u32) {
        (self.key@, self.money, self.level, self.exp)
    }
}

impl Anima {
    /// A record stored under `key` with the given money, level and
    /// experience.
    pub fn new(key: &str, money: u32, level: u32, exp: u32) -> (anima: Anima)
        ensures
            anima@ == (key@, money, level, exp),
    {
        Anima { key: key.to_owned(), money, level, exp }
    }

    /// The record's money.
    pub fn money(&self) -> (money: u32)
        ensures
            money == self@.1,
    {
        self.money
    }

    /// The record's level.
    pub fn level(&self) -> (level: u32)
        ensures
            level == self@.2,
    {
        self.level
    }

    /// The record's experience.
    pub fn exp(&self) -> (exp: u32)
        ensures
            exp == self@.3,
    {
        self.exp
    }
}

impl RedisKey for Anima {
    fn key(&self) -> (key: String)
        ensures
            key@ == self@.0,
    {
        self.key.clone()
    }
}

} // verus!
