use junk_pedals::sampler::{read_average_v, RAW_SAMPLE_MAX, READ_V_COUNT};

#[test]
fn window_constants() {
    assert_eq!(READ_V_COUNT, 3);
    assert_eq!(RAW_SAMPLE_MAX, 4095);
}

#[test]
fn average_of_three_samples() {
    assert_eq!(read_average_v(&[100, 200, 300]), 200);
}

#[test]
fn average_is_floored() {
    assert_eq!(read_average_v(&[0, 0, 1]), 0);
    assert_eq!(read_average_v(&[0, 1, 1]), 0);
    assert_eq!(read_average_v(&[1, 1, 2]), 1);
    assert_eq!(read_average_v(&[100, 200, 302]), 200);
    assert_eq!(read_average_v(&[4095, 4095, 4094]), 4094);
}

#[test]
fn average_of_equal_samples_is_the_sample() {
    for v in [0u16, 1, 650, 750, 4095, u16::MAX] {
        assert_eq!(read_average_v(&[v, v, v]), v);
    }
}

#[test]
fn average_does_not_depend_on_order() {
    assert_eq!(read_average_v(&[300, 100, 200]), 200);
    assert_eq!(read_average_v(&[200, 300, 100]), 200);
}

#[test]
fn average_does_not_overflow() {
    assert_eq!(read_average_v(&[u16::MAX, u16::MAX, u16::MAX]), u16::MAX);
    assert_eq!(read_average_v(&[u16::MAX, u16::MAX, 0]), 43690);
    assert_eq!(read_average_v(&[40000, 50000, 60000]), 50000);
}

#[test]
fn average_of_12_bit_samples_is_12_bit() {
    for a in [0u16, 1, 2047, 4094, 4095] {
        for b in [0u16, 3, 2048, 4095] {
            for c in [0u16, 5, 4095] {
                let avg = read_average_v(&[a, b, c]);
                assert!(avg <= RAW_SAMPLE_MAX);
                assert_eq!(avg as u32, (a as u32 + b as u32 + c as u32) / 3);
            }
        }
    }
}
