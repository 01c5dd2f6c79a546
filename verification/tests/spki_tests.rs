use tracerbench_serve::spki::{build_spki_sequence, spki_digest};
use tracerbench_serve::vec_with_size_hint;

#[test]
fn der_wrapper_short_length() {
    let value: Vec<u8> = vec![1, 2, 3];
    assert_eq!(build_spki_sequence(value.as_slice()), vec![0x30, 3, 1, 2, 3]);
}

#[test]
fn der_wrapper_boundary_lengths() {
    // 127 bytes still uses the short form
    let value: Vec<u8> = vec![0xAA; 127];
    let tlv = build_spki_sequence(value.as_slice());
    assert_eq!(tlv[0], 0x30);
    assert_eq!(tlv[1], 127);
    assert_eq!(&tlv[2..], value.as_slice());

    // 128 bytes switches to the long form with one length byte
    let value: Vec<u8> = vec![0xBB; 128];
    let tlv = build_spki_sequence(value.as_slice());
    assert_eq!(tlv[0], 0x30);
    assert_eq!(tlv[1], 0x81);
    assert_eq!(tlv[2], 128);
    assert_eq!(&tlv[3..], value.as_slice());

    // 300 bytes needs two length bytes
    let value: Vec<u8> = vec![0xCC; 300];
    let tlv = build_spki_sequence(value.as_slice());
    assert_eq!(tlv[0], 0x30);
    assert_eq!(tlv[1], 0x82);
    assert_eq!(tlv[2], 1);
    assert_eq!(tlv[3], 44);
    assert_eq!(&tlv[4..], value.as_slice());
}

#[test]
fn spki_digest_of_real_certificate() {
    // a throwaway self-signed RSA certificate; the expected value is
    // BASE64(SHA256(subjectPublicKeyInfo)) computed independently of this
    // library
    let cert_der: [u8; 781] = [
    48, 130, 3, 9, 48, 130, 1, 241, 160, 3, 2, 1, 2, 2, 20, 3,
    70, 215, 172, 238, 102, 230, 203, 213, 216, 97, 73, 52, 44, 116, 157, 162,
    56, 50, 206, 48, 13, 6, 9, 42, 134, 72, 134, 247, 13, 1, 1, 11,
    5, 0, 48, 20, 49, 18, 48, 16, 6, 3, 85, 4, 3, 12, 9, 108,
    111, 99, 97, 108, 104, 111, 115, 116, 48, 30, 23, 13, 50, 54, 49, 48,
    49, 49, 49, 55, 52, 51, 53, 50, 90, 23, 13, 50, 55, 49, 48, 49,
    49, 49, 55, 52, 51, 53, 50, 90, 48, 20, 49, 18, 48, 16, 6, 3,
    85, 4, 3, 12, 9, 108, 111, 99, 97, 108, 104, 111, 115, 116, 48, 130,
    1, 34, 48, 13, 6, 9, 42, 134, 72, 134, 247, 13, 1, 1, 1, 5,
    0, 3, 130, 1, 15, 0, 48, 130, 1, 10, 2, 130, 1, 1, 0, 227,
    143, 26, 228, 235, 240, 42, 89, 41, 15, 115, 143, 35, 153, 33, 71, 146,
    37, 148, 194, 221, 20, 120, 54, 219, 44, 146, 52, 208, 123, 194, 175, 15,
    76, 209, 164, 244, 79, 250, 67, 31, 115, 227, 96, 161, 161, 26, 253, 136,
    23, 125, 211, 236, 50, 134, 42, 16, 29, 2, 213, 62, 158, 58, 21, 70,
    139, 153, 26, 174, 238, 4, 104, 60, 76, 247, 231, 50, 47, 163, 84, 241,
    142, 82, 43, 98, 112, 18, 185, 62, 62, 236, 123, 50, 18, 122, 171, 198,
    86, 4, 65, 94, 200, 153, 159, 125, 165, 35, 208, 153, 206, 157, 18, 40,
    41, 54, 14, 82, 100, 64, 208, 64, 168, 0, 71, 141, 180, 67, 205, 87,
    41, 172, 99, 228, 123, 102, 183, 63, 163, 125, 233, 43, 252, 72, 129, 132,
    253, 160, 132, 142, 131, 95, 206, 58, 49, 52, 170, 175, 53, 11, 53, 169,
    121, 164, 211, 158, 244, 131, 40, 227, 68, 222, 218, 4, 220, 13, 127, 183,
    149, 49, 177, 245, 218, 57, 56, 209, 222, 51, 130, 26, 52, 209, 97, 55,
    43, 156, 143, 207, 126, 27, 169, 90, 72, 133, 141, 60, 195, 81, 100, 130,
    10, 108, 129, 155, 236, 55, 223, 45, 219, 119, 242, 3, 185, 247, 86, 130,
    205, 198, 73, 65, 110, 128, 40, 244, 249, 29, 126, 252, 170, 162, 171, 178,
    128, 194, 155, 199, 186, 247, 189, 144, 250, 119, 97, 137, 26, 11, 97, 2,
    3, 1, 0, 1, 163, 83, 48, 81, 48, 29, 6, 3, 85, 29, 14, 4,
    22, 4, 20, 85, 67, 125, 133, 198, 199, 83, 63, 253, 56, 109, 28, 122,
    215, 29, 90, 241, 198, 159, 240, 48, 31, 6, 3, 85, 29, 35, 4, 24,
    48, 22, 128, 20, 85, 67, 125, 133, 198, 199, 83, 63, 253, 56, 109, 28,
    122, 215, 29, 90, 241, 198, 159, 240, 48, 15, 6, 3, 85, 29, 19, 1,
    1, 255, 4, 5, 48, 3, 1, 1, 255, 48, 13, 6, 9, 42, 134, 72,
    134, 247, 13, 1, 1, 11, 5, 0, 3, 130, 1, 1, 0, 222, 17, 160,
    35, 198, 241, 112, 9, 168, 53, 211, 247, 172, 253, 202, 4, 157, 178, 188,
    176, 106, 221, 139, 128, 35, 9, 213, 62, 156, 146, 27, 62, 86, 52, 23,
    8, 210, 182, 197, 24, 199, 227, 190, 222, 80, 239, 198, 38, 110, 26, 237,
    37, 188, 89, 25, 170, 111, 33, 235, 203, 82, 123, 14, 117, 255, 129, 219,
    224, 143, 216, 229, 170, 235, 74, 207, 183, 95, 91, 254, 250, 66, 201, 173,
    140, 13, 179, 109, 195, 246, 126, 83, 188, 8, 119, 102, 225, 159, 155, 20,
    50, 12, 158, 214, 168, 241, 245, 78, 218, 127, 108, 10, 161, 61, 133, 145,
    17, 245, 151, 184, 41, 76, 126, 101, 254, 229, 72, 79, 35, 107, 27, 159,
    81, 226, 24, 37, 31, 126, 135, 96, 27, 241, 36, 248, 151, 32, 141, 149,
    180, 82, 64, 186, 78, 94, 199, 80, 209, 255, 6, 45, 82, 9, 228, 16,
    245, 207, 60, 154, 231, 16, 139, 226, 181, 44, 193, 190, 77, 62, 135, 53,
    224, 213, 103, 153, 211, 97, 210, 206, 8, 226, 32, 59, 15, 218, 125, 99,
    22, 65, 154, 194, 59, 205, 223, 208, 13, 232, 255, 32, 250, 152, 42, 70,
    163, 143, 1, 128, 225, 187, 109, 58, 27, 210, 175, 61, 201, 103, 170, 40,
    253, 227, 145, 55, 71, 179, 246, 27, 172, 252, 35, 236, 136, 35, 217, 5,
    145, 149, 157, 159, 115, 154, 102, 168, 20, 196, 195, 179, 221,
    ];
    let digest = spki_digest(&cert_der).unwrap();
    assert_eq!(digest, "QSzBtSr2wAL7HjVK7Yzrc5p67qVJ7LMwPo/eAXG0SHI=");
}

#[test]
fn spki_digest_rejects_garbage() {
    assert!(spki_digest(&[0, 1, 2, 3]).is_none());
    assert!(spki_digest(&[]).is_none());
}

#[test]
fn size_hint_allocates_empty_vectors() {
    let a: Vec<u32> = vec_with_size_hint(Some(16));
    let b: Vec<u32> = vec_with_size_hint(None);
    assert!(a.is_empty());
    assert!(b.is_empty());
}
