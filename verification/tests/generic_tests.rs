use coroutines::is_power_of_two;
use coroutines::log2;
use coroutines::split;
use coroutines::Assert;
use coroutines::FftArray;
use coroutines::Fp255;
use coroutines::Fp256;
use coroutines::Fp381;
use coroutines::IsTrue;
use coroutines::Matrix;
use coroutines::MerkleProof;
use coroutines::MerkleTree;
use coroutines::Polynomial;

fn witness_type_level_truth<A: IsTrue>() {}

#[test]
fn check_split() {
    let array = vec![5, 6, 42, 24];
    let (first, rest) = split(&array, 2);
    assert_eq!(first, [5, 6]);
    assert_eq!(rest, [42, 24]);

    let array = vec![5, 6, 42, 24];
    let (first, rest) = split(&array, 1);
    assert_eq!(first, [5]);
    assert_eq!(rest, [6, 42, 24]);

    let array = vec![5, 6, 42, 24];
    let (first, rest) = split(&array, 1);
    assert_eq!(first, [5]);
    assert_eq!(rest, [6, 42, 24]);
}

#[test]
fn split_at_either_end() {
    let array = vec![1, 2, 3];
    let (first, rest) = split(&array, 0);
    assert_eq!(first, Vec::<i32>::new());
    assert_eq!(rest, [1, 2, 3]);

    let (first, rest) = split(&array, 3);
    assert_eq!(first, [1, 2, 3]);
    assert_eq!(rest, Vec::<i32>::new());
}

#[test]
fn type_level_assertion_holds_for_true() {
    witness_type_level_truth::<Assert<true>>();
}

#[test]
fn power_of_two_checks() {
    assert!(is_power_of_two(1));
    assert!(is_power_of_two(2));
    assert!(is_power_of_two(8));
    assert!(is_power_of_two(1024));
    assert!(!is_power_of_two(0));
    assert!(!is_power_of_two(3));
    assert!(!is_power_of_two(42));
}

#[test]
fn log2_values() {
    assert_eq!(log2(1), 0);
    assert_eq!(log2(2), 1);
    assert_eq!(log2(3), 1);
    assert_eq!(log2(8), 3);
    assert_eq!(log2(42), 5);
    assert_eq!(log2(1024), 10);
}

#[test]
fn test_fft_array() {
    let fft = FftArray::<f64>::new(1024, 0.0);
    assert_eq!(fft.len(), 1024);
    // A length that is not a power of two is refused by the constructor's
    // precondition instead of by the type system.
}

#[test]
fn test_field_elements() {
    let _fp256 = Fp256::zero();
    assert_eq!(Fp256::limb_count(), 4);

    let _fp381 = Fp381::zero();
    assert_eq!(Fp381::limb_count(), 6);

    let _fp255 = Fp255::zero();
    assert_eq!(Fp255::limb_count(), 4);

    Fp255::from_limbs(vec![0, 0, 0, 0]);
    Fp381::from_limbs(vec![0, 0, 0, 0, 0, 0]);
}

#[test]
fn test_matrix_ops() {
    let a: Matrix<i64> = Matrix::from_data(vec![vec![1, 2, 3], vec![4, 5, 6]]);
    let b: Matrix<i64> = Matrix::from_data(vec![vec![1, 2], vec![3, 4], vec![5, 6]]);

    // Result is 2x2
    let c = a.matmul(&b);
    assert_eq!(c.row_count(), 2);
    assert_eq!(c.col_count(), 2);

    // Transpose: 2x3 -> 3x2
    let at = a.transpose();
    assert_eq!(at.row_count(), 3);
    assert_eq!(at.col_count(), 2);

    // Horizontal concat: 2x3 + 2x2 -> 2x5
    let wide = a.horizontal_concat(&c);
    assert_eq!(wide.row_count(), 2);
    assert_eq!(wide.col_count(), 5);
}

#[test]
fn matrix_product_and_concat_entries() {
    let a: Matrix<i64> = Matrix::from_data(vec![vec![1, 2, 3], vec![4, 5, 6]]);
    let b: Matrix<i64> = Matrix::from_data(vec![vec![1, 2], vec![3, 4], vec![5, 6]]);

    let c = a.matmul(&b);
    assert_eq!(c.entry(0, 0), 22);
    assert_eq!(c.entry(0, 1), 28);
    assert_eq!(c.entry(1, 0), 49);
    assert_eq!(c.entry(1, 1), 64);

    let at = a.transpose();
    assert_eq!(at.entry(0, 1), 4);
    assert_eq!(at.entry(2, 0), 3);

    let wide = a.horizontal_concat(&c);
    assert_eq!(wide.entry(1, 2), 6);
    assert_eq!(wide.entry(1, 3), 49);

    let zeros = Matrix::zeros(2, 3);
    assert_eq!(zeros.entry(1, 2), 0);
    let tall = a.vertical_concat(&zeros);
    assert_eq!(tall.row_count(), 4);
    assert_eq!(tall.entry(1, 1), 5);
    assert_eq!(tall.entry(3, 1), 0);
}

#[test]
fn test_merkle_tree() {
    let tree = MerkleTree::<8>::new();
    assert_eq!(tree.depth(), 3);
    assert_eq!(tree.leaf_count(), 8);
    assert_eq!(tree.total_nodes(), 15);

    let big_tree = MerkleTree::<1024>::new();
    assert_eq!(big_tree.depth(), 10);
    assert_eq!(big_tree.total_nodes(), 2047);

    // A proof's shape is pinned by the constructor's precondition: three
    // levels for eight leaves.
    MerkleProof::<8>::new(vec![[42u8; 32], [42u8; 32], [42u8; 32]], vec![true, false, true]);
}

#[test]
fn test_polynomial_multiplication() {
    // (1 + 2x) * (3 + 4x) = 3 + 10x + 8x²
    let p1 = Polynomial::from_coefficients(vec![1, 2]);
    let p2 = Polynomial::from_coefficients(vec![3, 4]);
    let product = p1.mul(&p2);

    assert_eq!(product.degree(), 2);
    assert_eq!(product.num_coefficients(), 3);
}

#[test]
fn polynomial_product_coefficients() {
    let p1 = Polynomial::from_coefficients(vec![1, 2]);
    let p2 = Polynomial::from_coefficients(vec![3, 4]);
    let product = p1.mul(&p2);
    assert_eq!(product.coefficients(), &vec![3, 10, 8]);

    let zero = Polynomial::zero(4);
    assert_eq!(zero.degree(), 4);
    assert_eq!(zero.coefficients(), &vec![0, 0, 0, 0, 0]);
}
