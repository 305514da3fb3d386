use language_model::TokenUsage;

fn usage(input: u64, output: u64, creation: u64, read: u64) -> TokenUsage {
    TokenUsage {
        input_tokens: input,
        output_tokens: output,
        cache_creation_input_tokens: creation,
        cache_read_input_tokens: read,
    }
}

#[test]
fn total_counts_every_kind_once() {
    assert_eq!(usage(1, 20, 300, 4000).total_tokens(), 4321);
    assert_eq!(TokenUsage::default().total_tokens(), 0);
    assert_eq!(usage(u64::MAX, 0, 0, 0).total_tokens(), u64::MAX);
    assert_eq!(usage(0, 0, u64::MAX - 1, 1).total_tokens(), u64::MAX);
}

#[test]
fn sum_and_difference_go_count_by_count() {
    let a = usage(10, 20, 30, 40);
    let b = usage(1, 2, 3, 4);
    assert_eq!(a + b, usage(11, 22, 33, 44));
    assert_eq!(a - b, usage(9, 18, 27, 36));
}

#[test]
fn addition_commutes_and_associates() {
    let a = usage(10, 20, 30, 40);
    let b = usage(1, 2, 3, 4);
    let c = usage(5, 0, 7, 0);
    assert_eq!(a + b, b + a);
    assert_eq!((a + b) + c, a + (b + c));
}

#[test]
fn default_usage_is_neutral() {
    let a = usage(10, 20, 30, 40);
    assert_eq!(TokenUsage::default(), usage(0, 0, 0, 0));
    assert_eq!(a + TokenUsage::default(), a);
    assert_eq!(a - TokenUsage::default(), a);
}

#[test]
fn subtraction_and_addition_undo_each_other() {
    let a = usage(10, 20, 30, 40);
    let b = usage(10, 2, 0, 39);
    assert_eq!((a + b) - b, a);
    assert_eq!((a - b) + b, a);
    assert_eq!(a - a, TokenUsage::default());
}

#[test]
fn totals_follow_sums_and_differences() {
    let a = usage(10, 20, 30, 40);
    let b = usage(1, 2, 3, 4);
    assert_eq!((a + b).total_tokens(), a.total_tokens() + b.total_tokens());
    assert_eq!((a - b).total_tokens(), a.total_tokens() - b.total_tokens());
}
