use qurious::join_type::JoinType;

#[test]
fn join_type_names() {
    assert_eq!(JoinType::Left.to_string(), "Left Join");
    assert_eq!(JoinType::Right.to_string(), "Right Join");
    assert_eq!(JoinType::Inner.to_string(), "Inner Join");
    assert_eq!(JoinType::Full.to_string(), "Full Join");
    assert_ne!(JoinType::Left, JoinType::Full);
}
