use printedin3d::role::UserRole;

#[test]
fn levels_are_one_two_three() {
    assert_eq!(UserRole::Customer.level(), 1);
    assert_eq!(UserRole::Operator.level(), 2);
    assert_eq!(UserRole::Admin.level(), 3);
}

#[test]
fn role_ordering() {
    let all = [UserRole::Customer, UserRole::Operator, UserRole::Admin];
    for a in all.iter() {
        // reflexive, Admin on top, Customer at the bottom
        assert!(a.has_minimum_role(a));
        assert!(UserRole::Admin.has_minimum_role(a));
        assert!(a.has_minimum_role(&UserRole::Customer));
        for b in all.iter() {
            // total, and antisymmetric
            assert!(a.has_minimum_role(b) || b.has_minimum_role(a));
            if a.has_minimum_role(b) && b.has_minimum_role(a) {
                assert_eq!(a, b);
            }
        }
    }
    assert!(!UserRole::Customer.has_minimum_role(&UserRole::Operator));
    assert!(!UserRole::Operator.has_minimum_role(&UserRole::Admin));
}

#[test]
fn default_role_is_customer() {
    assert_eq!(UserRole::default(), UserRole::Customer);
}
