use shapes::util::{max_of_three, mid_of_three, min_of_three};

#[test]
fn test_simple() {
    assert_eq!(min_of_three(4, 1, 9), 1);
    assert_eq!(min_of_three(-999, 0, 999), -999);
    assert_eq!(
        mid_of_three(4.3, -1.0, std::f32::consts::PI),
        std::f32::consts::PI
    );
    assert_eq!(mid_of_three(u32::MIN, 0, u32::MAX), 0);
    assert_eq!(
        max_of_three(std::f32::consts::E, 0.111111, 0.111111),
        std::f32::consts::E
    );
    assert_eq!(
        max_of_three(
            -333.333333333333333_f64,
            -222.222222222222222_f64,
            -111.111111111111111_f64
        ),
        -111.111111111111111_f64
    );
}

#[test]
fn util_min_of_three_with_permutations() {
    let permutations: [[u32; 3]; 6] = [
        [1, 2, 3],
        [1, 3, 2],
        [2, 1, 3],
        [2, 3, 1],
        [3, 1, 2],
        [3, 2, 1],
    ];
    for comb in permutations {
        let [x, y, z] = comb;
        assert_eq!(min_of_three(x, y, z), 1);
    }
}

#[test]
fn util_mid_of_three_with_permutations() {
    let permutations: [[u32; 3]; 6] = [
        [1, 2, 3],
        [1, 3, 2],
        [2, 1, 3],
        [2, 3, 1],
        [3, 1, 2],
        [3, 2, 1],
    ];
    for comb in permutations {
        let [x, y, z] = comb;
        assert_eq!(mid_of_three(x, y, z), 2);
    }
}

#[test]
fn util_max_of_three_with_permutations() {
    let permutations: [[u32; 3]; 6] = [
        [1, 2, 3],
        [1, 3, 2],
        [2, 1, 3],
        [2, 3, 1],
        [3, 1, 2],
        [3, 2, 1],
    ];
    for comb in permutations {
        let [x, y, z] = comb;
        assert_eq!(max_of_three(x, y, z), 3);
    }
}
