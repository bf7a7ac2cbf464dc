use smf_codec::variable_length_quantity::VariableLengthQuantity;

#[test]
fn test_parse_variable_length_quantity() {
    let input_answer_pairs_1 = [([0x00], 0x00), ([0x40], 0x40), ([0x7f], 0x7f)];
    let input_answer_pairs_2 = [
        ([0x81, 0x00], 0x80),
        ([0xc0, 0x00], 0x2000),
        ([0xff, 0x7f], 0x3fff),
    ];
    let input_answer_pairs_3 = [
        ([0x81, 0x80, 0x00], 0x4000),
        ([0xc0, 0x80, 0x00], 0x100000),
        ([0xff, 0xff, 0x7f], 0x1fffff),
    ];
    let input_answer_pairs_4 = [
        ([0x81, 0x80, 0x80, 0x00], 0x200000),
        ([0xc0, 0x80, 0x80, 0x00], 0x8000000),
        ([0xff, 0xff, 0xff, 0x7f], 0xfffffff),
    ];
    for (input, answer) in input_answer_pairs_1.iter() {
        let expected = VariableLengthQuantity { value: *answer };
        let actual = match VariableLengthQuantity::parse(input, 0) {
            Ok((actual, _)) => actual,
            Err(e) => panic!("{:?}", e),
        };
        assert_eq!(expected, actual);
    }
    for (input, answer) in input_answer_pairs_2.iter() {
        let expected = VariableLengthQuantity { value: *answer };
        let actual = match VariableLengthQuantity::parse(input, 0) {
            Ok((actual, _)) => actual,
            Err(e) => panic!("{:?}", e),
        };
        assert_eq!(expected, actual);
    }
    for (input, answer) in input_answer_pairs_3.iter() {
        let expected = VariableLengthQuantity { value: *answer };
        let actual = match VariableLengthQuantity::parse(input, 0) {
            Ok((actual, _)) => actual,
            Err(e) => panic!("{:?}", e),
        };
        assert_eq!(expected, actual);
    }
    for (input, answer) in input_answer_pairs_4.iter() {
        let expected = VariableLengthQuantity { value: *answer };
        let actual = match VariableLengthQuantity::parse(input, 0) {
            Ok((actual, _)) => actual,
            Err(e) => panic!("{:?}", e),
        };
        assert_eq!(expected, actual);
    }
}

#[test]
fn variable_length_quantity_test_to_bytes() {
    let input_answer_pairs_1 = [(0x00, [0x00]), (0x40, [0x40]), (0x7f, [0x7f])];
    let input_answer_pairs_2 = [
        (0x80, [0x81, 0x00]),
        (0x2000, [0xc0, 0x00]),
        (0x3fff, [0xff, 0x7f]),
    ];
    let input_answer_pairs_3 = [
        (0x4000, [0x81, 0x80, 0x00]),
        (0x100000, [0xc0, 0x80, 0x00]),
        (0x1fffff, [0xff, 0xff, 0x7f]),
    ];
    let input_answer_pairs_4 = [
        (0x200000, [0x81, 0x80, 0x80, 0x00]),
        (0x8000000, [0xc0, 0x80, 0x80, 0x00]),
        (0xfffffff, [0xff, 0xff, 0xff, 0x7f]),
    ];
    for (input, answer) in input_answer_pairs_1.iter() {
        let expected = answer.to_vec();
        let actual = VariableLengthQuantity { value: *input }.to_bytes();
        assert_eq!(expected, actual);
    }
    for (input, answer) in input_answer_pairs_2.iter() {
        let expected = answer.to_vec();
        let actual = VariableLengthQuantity { value: *input }.to_bytes();
        assert_eq!(expected, actual);
    }
    for (input, answer) in input_answer_pairs_3.iter() {
        let expected = answer.to_vec();
        let actual = VariableLengthQuantity { value: *input }.to_bytes();
        assert_eq!(expected, actual);
    }
    for (input, answer) in input_answer_pairs_4.iter() {
        let expected = answer.to_vec();
        let actual = VariableLengthQuantity { value: *input }.to_bytes();
        assert_eq!(expected, actual);
    }
}

#[test]
fn vlq_round_trip_across_length_boundaries() {
    let values = [
        0u32, 1, 0x3f, 0x7f, 0x80, 0x81, 0x2000, 0x3fff, 0x4000, 0x4001, 0x123456, 0x1fffff,
        0x200000, 0x200001, 0x8000000, 0xfffffff,
    ];
    for v in values.iter() {
        let vlq = VariableLengthQuantity { value: *v };
        let bytes = vlq.to_bytes();
        let expected_len: usize = if *v <= 0x7f {
            1
        } else if *v <= 0x3fff {
            2
        } else if *v <= 0x1fffff {
            3
        } else {
            4
        };
        assert_eq!(bytes.len(), expected_len);
        let (decoded, consumed) = VariableLengthQuantity::parse(&bytes, 0).unwrap();
        assert_eq!(decoded, vlq);
        assert_eq!(consumed, bytes.len());
    }
}
