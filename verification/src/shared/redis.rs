use vstd::prelude::*;
use vstd::string::*;

verus! {

/// The purpose a Redis instance serves in the system.
#[derive(Clone, Copy, Debug, PartialEq, Eq, Structural, Hash)]
pub enum RedisDesignation {
    RenderWorkerCache,
    PreloadArticleWorkerCache,
}

/// The number that stands for a designation (its declaration index).
pub open spec fn designation_code(d: RedisDesignation) -> u32 {
    match d {
        RedisDesignation::RenderWorkerCache => 0,
        RedisDesignation::PreloadArticleWorkerCache => 1,
    }
}

/// The designation a number stands for, if any.
pub open spec fn designation_of_code(value: u32) -> Option<RedisDesignation> {
    if value == 0 {
        Some(RedisDesignation::RenderWorkerCache)
    } else if value == 1 {
        Some(RedisDesignation::PreloadArticleWorkerCache)
    } else {
        None
    }
}

/// The text `Display` shows for a designation: the variant's name.
pub open spec fn designation_name(d: RedisDesignation) -> Seq<char> {
    match d {
        RedisDesignation::RenderWorkerCache => "RenderWorkerCache"@,
        RedisDesignation::PreloadArticleWorkerCache => "PreloadArticleWorkerCache"@,
    }
}

impl RedisDesignation {
    pub fn as_u32(&self) -> (r: u32)
        ensures
            r == designation_code(*self),
    {
        match self {
            RedisDesignation::RenderWorkerCache => 0,
            RedisDesignation::PreloadArticleWorkerCache => 1,
        }
    }

    /// The designation's name, as its `Display` shows it.
    pub fn to_string(&self) -> (r: String)
        ensures
            r@ == designation_name(*self),
    {
        match self {
            RedisDesignation::RenderWorkerCache => String::from_str("RenderWorkerCache"),
            RedisDesignation::PreloadArticleWorkerCache => String::from_str(
                "PreloadArticleWorkerCache",
            ),
        }
    }

    pub fn from_u32(value: u32) -> (r: Option<Self>)
        ensures
            r == designation_of_code(value),
    {
        match value {
            0 => Some(RedisDesignation::RenderWorkerCache),
            1 => Some(RedisDesignation::PreloadArticleWorkerCache),
            _ => None,
        }
    }
}

/// `from_u32` undoes `as_u32`, and `as_u32` undoes `from_u32` wherever it succeeds.
pub proof fn lemma_designation_code_roundtrip(d: RedisDesignation, value: u32)
    ensures
        designation_of_code(designation_code(d)) == Some(d),
        designation_of_code(value) == Some(d) ==> designation_code(d) == value,
        designation_of_code(value) is Some <==> value < 2,
{
}

} // verus!

verus! {

/// Where a Redis instance is reached, and under which key prefix a component stores its data.
#[derive(Clone, Debug)]
pub struct RedisAccess {
    pub url: String,
    pub base_key: String,
    pub auth: Option<RedisAuth>,
}

/// Credentials for a Redis instance.
#[derive(Clone, Debug)]
pub struct RedisAuth {
    pub user: String,
    pub password: String,
}

} // verus!
