use std::ops::{Add, Sub};

use vstd::prelude::*;

verus! {

/// The number of tokens that a completion has used so far.
#[derive(Debug, PartialEq, Eq, Structural, Clone, Copy)]
pub struct TokenUsage {
    pub input_tokens: u64,
    pub output_tokens: u64,
    pub cache_creation_input_tokens: u64,
    pub cache_read_input_tokens: u64,
}

impl TokenUsage {
    /// No tokens of any kind.
    pub open spec fn zero() -> TokenUsage {
        TokenUsage {
            input_tokens: 0,
            output_tokens: 0,
            cache_creation_input_tokens: 0,
            cache_read_input_tokens: 0,
        }
    }

    /// All tokens counted together, whatever they were used for.
    pub open spec fn total(self) -> int {
        self.input_tokens + self.output_tokens + self.cache_creation_input_tokens
            + self.cache_read_input_tokens
    }

    /// Each count of `self + other` can be represented.
    pub open spec fn addable(self, other: TokenUsage) -> bool {
        &&& self.input_tokens + other.input_tokens <= u64::MAX
        &&& self.output_tokens + other.output_tokens <= u64::MAX
        &&& self.cache_creation_input_tokens + other.cache_creation_input_tokens <= u64::MAX
        &&& self.cache_read_input_tokens + other.cache_read_input_tokens <= u64::MAX
    }

    /// No count of `self` is below the same count of `other`.
    pub open spec fn covers(self, other: TokenUsage) -> bool {
        &&& other.input_tokens <= self.input_tokens
        &&& other.output_tokens <= self.output_tokens
        &&& other.cache_creation_input_tokens <= self.cache_creation_input_tokens
        &&& other.cache_read_input_tokens <= self.cache_read_input_tokens
    }

    /// The sum, count by count. Meaningful where `addable` holds.
    pub open spec fn plus(self, other: TokenUsage) -> TokenUsage {
        TokenUsage {
            input_tokens: (self.input_tokens + other.input_tokens) as u64,
            output_tokens: (self.output_tokens + other.output_tokens) as u64,
            cache_creation_input_tokens: (self.cache_creation_input_tokens
                + other.cache_creation_input_tokens) as u64,
            cache_read_input_tokens: (self.cache_read_input_tokens
                + other.cache_read_input_tokens) as u64,
        }
    }

    /// The difference, count by count. Meaningful where `covers` holds.
    pub open spec fn minus(self, other: TokenUsage) -> TokenUsage {
        TokenUsage {
            input_tokens: (self.input_tokens - other.input_tokens) as u64,
            output_tokens: (self.output_tokens - other.output_tokens) as u64,
            cache_creation_input_tokens: (self.cache_creation_input_tokens
                - other.cache_creation_input_tokens) as u64,
            cache_read_input_tokens: (self.cache_read_input_tokens
                - other.cache_read_input_tokens) as u64,
        }
    }

    /// The number of tokens of all kinds together.
    pub fn total_tokens(&self) -> (total: u64)
        requires
            self.input_tokens + self.output_tokens + self.cache_creation_input_tokens
                + self.cache_read_input_tokens <= u64::MAX,
        ensures
            total == self.total(),
            total == self.input_tokens + self.output_tokens + self.cache_creation_input_tokens
                + self.cache_read_input_tokens,
    {
        self.input_tokens + self.output_tokens + self.cache_read_input_tokens
            + self.cache_creation_input_tokens
    }
}

impl Default for TokenUsage {
    fn default() -> (usage: Self)
        ensures
            usage == TokenUsage::zero(),
            usage.input_tokens == 0,
            usage.output_tokens == 0,
            usage.cache_creation_input_tokens == 0,
            usage.cache_read_input_tokens == 0,
    {
        TokenUsage {
            input_tokens: 0,
            output_tokens: 0,
            cache_creation_input_tokens: 0,
            cache_read_input_tokens: 0,
        }
    }
}

impl Add<TokenUsage> for TokenUsage {
    type Output = Self;

    fn add(self, other: Self) -> (sum: Self)
        ensures
            sum == self.plus(other),
            sum.input_tokens == self.input_tokens + other.input_tokens,
            sum.output_tokens == self.output_tokens + other.output_tokens,
            sum.cache_creation_input_tokens == self.cache_creation_input_tokens + other.cache_creation_input_tokens,
            sum.cache_read_input_tokens == self.cache_read_input_tokens + other.cache_read_input_tokens,
    {
        TokenUsage {
            input_tokens: self.input_tokens + other.input_tokens,
            output_tokens: self.output_tokens + other.output_tokens,
            cache_creation_input_tokens: self.cache_creation_input_tokens
                + other.cache_creation_input_tokens,
            cache_read_input_tokens: self.cache_read_input_tokens + other.cache_read_input_tokens,
        }
    }
}

impl vstd::std_specs::ops::AddSpecImpl<TokenUsage> for TokenUsage {
    open spec fn obeys_add_spec() -> bool {
        true
    }

    open spec fn add_req(self, other: Self) -> bool {
        self.addable(other)
    }

    open spec fn add_spec(self, other: Self) -> Self {
        self.plus(other)
    }
}

impl Sub<TokenUsage> for TokenUsage {
    type Output = Self;

    fn sub(self, other: Self) -> (difference: Self)
        ensures
            difference == self.minus(other),
            difference.input_tokens == self.input_tokens - other.input_tokens,
            difference.output_tokens == self.output_tokens - other.output_tokens,
            difference.cache_creation_input_tokens == self.cache_creation_input_tokens - other.cache_creation_input_tokens,
            difference.cache_read_input_tokens == self.cache_read_input_tokens - other.cache_read_input_tokens,
    {
        TokenUsage {
            input_tokens: self.input_tokens - other.input_tokens,
            output_tokens: self.output_tokens - other.output_tokens,
            cache_creation_input_tokens: self.cache_creation_input_tokens
                - other.cache_creation_input_tokens,
            cache_read_input_tokens: self.cache_read_input_tokens - other.cache_read_input_tokens,
        }
    }
}

impl vstd::std_specs::ops::SubSpecImpl<TokenUsage> for TokenUsage {
    open spec fn obeys_sub_spec() -> bool {
        true
    }

    open spec fn sub_req(self, other: Self) -> bool {
        self.covers(other)
    }

    open spec fn sub_spec(self, other: Self) -> Self {
        self.minus(other)
    }
}

/// The order in which two usages are added does not matter.
pub proof fn lemma_addition_commutes(a: TokenUsage, b: TokenUsage)
    ensures
        a.addable(b) == b.addable(a),
        a.plus(b) == b.plus(a),
{
}

/// Usages may be added up in any grouping.
pub proof fn lemma_addition_associates(a: TokenUsage, b: TokenUsage, c: TokenUsage)
    requires
        a.addable(b),
        a.plus(b).addable(c),
    ensures
        b.addable(c),
        a.addable(b.plus(c)),
        a.plus(b).plus(c) == a.plus(b.plus(c)),
{
}

/// Adding or subtracting the default usage changes nothing.
pub proof fn lemma_default_is_neutral(a: TokenUsage)
    ensures
        a.addable(TokenUsage::zero()),
        a.plus(TokenUsage::zero()) == a,
        a.covers(TokenUsage::zero()),
        a.minus(TokenUsage::zero()) == a,
        TokenUsage::zero().total() == 0,
        TokenUsage::zero().input_tokens == 0,
        TokenUsage::zero().output_tokens == 0,
        TokenUsage::zero().cache_creation_input_tokens == 0,
        TokenUsage::zero().cache_read_input_tokens == 0,
{
}

/// Subtraction undoes addition.
pub proof fn lemma_subtraction_undoes_addition(a: TokenUsage, b: TokenUsage)
    requires
        a.addable(b),
    ensures
        a.plus(b).covers(b),
        a.plus(b).minus(b) == a,
{
}

/// Addition undoes subtraction.
pub proof fn lemma_addition_undoes_subtraction(a: TokenUsage, b: TokenUsage)
    requires
        a.covers(b),
    ensures
        a.minus(b).addable(b),
        a.minus(b).plus(b) == a,
{
}

/// The total of a sum is the sum of the totals.
pub proof fn lemma_total_of_sum(a: TokenUsage, b: TokenUsage)
    requires
        a.addable(b),
    ensures
        a.plus(b).total() == a.total() + b.total(),
{
}

/// The total of a difference is the difference of the totals.
pub proof fn lemma_total_of_difference(a: TokenUsage, b: TokenUsage)
    requires
        a.covers(b),
    ensures
        a.minus(b).total() == a.total() - b.total(),
{
}

/// Addition adds each count to the same count of the other usage, with no carry between them, and
/// can be done exactly where each of the four sums can be represented.
pub proof fn lemma_sum_of_each_count(a: TokenUsage, b: TokenUsage)
    ensures
        <TokenUsage as vstd::std_specs::ops::AddSpec<TokenUsage>>::obeys_add_spec(),
        <TokenUsage as vstd::std_specs::ops::AddSpec<TokenUsage>>::add_req(a, b) <==> a.input_tokens + b.input_tokens <= u64::MAX && a.output_tokens
            + b.output_tokens <= u64::MAX && a.cache_creation_input_tokens
            + b.cache_creation_input_tokens <= u64::MAX && a.cache_read_input_tokens
            + b.cache_read_input_tokens <= u64::MAX,
        <TokenUsage as vstd::std_specs::ops::AddSpec<TokenUsage>>::add_req(a, b) ==> {
            let sum = <TokenUsage as vstd::std_specs::ops::AddSpec<TokenUsage>>::add_spec(a, b);
            &&& sum.input_tokens == a.input_tokens + b.input_tokens
            &&& sum.output_tokens == a.output_tokens + b.output_tokens
            &&& sum.cache_creation_input_tokens == a.cache_creation_input_tokens + b.cache_creation_input_tokens
            &&& sum.cache_read_input_tokens == a.cache_read_input_tokens + b.cache_read_input_tokens
        },
{
}

/// Subtraction subtracts each count from the same count of the other usage, and can be done exactly
/// where none of the four differences is negative.
pub proof fn lemma_difference_of_each_count(a: TokenUsage, b: TokenUsage)
    ensures
        <TokenUsage as vstd::std_specs::ops::SubSpec<TokenUsage>>::obeys_sub_spec(),
        <TokenUsage as vstd::std_specs::ops::SubSpec<TokenUsage>>::sub_req(a, b) <==> b.input_tokens <= a.input_tokens && b.output_tokens
            <= a.output_tokens && b.cache_creation_input_tokens <= a.cache_creation_input_tokens
            && b.cache_read_input_tokens <= a.cache_read_input_tokens,
        <TokenUsage as vstd::std_specs::ops::SubSpec<TokenUsage>>::sub_req(a, b) ==> {
            let difference = <TokenUsage as vstd::std_specs::ops::SubSpec<TokenUsage>>::sub_spec(a, b);
            &&& difference.input_tokens == a.input_tokens - b.input_tokens
            &&& difference.output_tokens == a.output_tokens - b.output_tokens
            &&& difference.cache_creation_input_tokens == a.cache_creation_input_tokens - b.cache_creation_input_tokens
            &&& difference.cache_read_input_tokens == a.cache_read_input_tokens - b.cache_read_input_tokens
        },
{
}

/// One more token of any kind is one more in total.
pub proof fn lemma_total_counts_each_kind_once(a: TokenUsage, b: TokenUsage)
    ensures
        b.total() - a.total() == (b.input_tokens - a.input_tokens) + (b.output_tokens
            - a.output_tokens) + (b.cache_creation_input_tokens - a.cache_creation_input_tokens) + (
        b.cache_read_input_tokens - a.cache_read_input_tokens),
{
}

} // verus!
