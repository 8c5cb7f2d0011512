use poing::sampler::top_k_select;

#[test]
fn selects_the_k_highest_scores() {
    let scores: Vec<i64> = vec![10, 50, 20, 40, 30];
    assert_eq!(top_k_select(&scores, 2), vec![1, 3]);
    assert_eq!(top_k_select(&scores, 3), vec![1, 3, 4]);
}

#[test]
fn ties_prefer_the_lower_index() {
    let scores: Vec<i64> = vec![10, 50, 20, 50];
    assert_eq!(top_k_select(&scores, 2), vec![1, 3]);
    let all_equal: Vec<i64> = vec![7, 7, 7];
    assert_eq!(top_k_select(&all_equal, 2), vec![0, 1]);
}

#[test]
fn k_is_clamped_to_the_vector_length() {
    let scores: Vec<i64> = vec![3, 1, 2];
    assert_eq!(top_k_select(&scores, 50), vec![0, 2, 1]);
}

#[test]
fn k_zero_and_empty_scores() {
    let scores: Vec<i64> = vec![5, 6];
    assert_eq!(top_k_select(&scores, 0), Vec::<usize>::new());
    let empty: Vec<i64> = Vec::new();
    assert_eq!(top_k_select(&empty, 4), Vec::<usize>::new());
}

#[test]
fn selection_is_deterministic() {
    let scores: Vec<i64> = vec![-3, 8, 8, 0, -3, 12];
    let first = top_k_select(&scores, 4);
    let second = top_k_select(&scores, 4);
    assert_eq!(first, second);
    assert_eq!(first, vec![5, 1, 2, 3]);
}

#[test]
fn negative_scores_order_correctly() {
    let scores: Vec<i64> = vec![-10, -1, -5];
    assert_eq!(top_k_select(&scores, 2), vec![1, 2]);
}
