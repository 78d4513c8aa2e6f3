use rvff_odol::error::DecodeError;
use rvff_odol::paa::get_mipmap_from_paa_vec;

fn container() -> Vec<u8> {
    let mut d = vec![0x01, 0xff]; // type tag
    d.extend_from_slice(b"GGATCGVA");
    d.extend_from_slice(&4u32.to_le_bytes());
    d.extend_from_slice(&[1, 2, 3, 4]);
    d.extend_from_slice(&1u16.to_le_bytes()); // one palette entry
    d.extend_from_slice(&[7, 7, 7]);
    d.extend_from_slice(&4u16.to_le_bytes());
    d.extend_from_slice(&4u16.to_le_bytes());
    d.extend_from_slice(&[3, 0, 0, 10, 11, 12]);
    d.extend_from_slice(&2u16.to_le_bytes());
    d.extend_from_slice(&2u16.to_le_bytes());
    d.extend_from_slice(&[1, 0, 0, 9]);
    d.extend_from_slice(&[0, 0, 0, 0]);
    d
}

#[test]
fn selects_mipmap_by_index() {
    let d = container();
    let m = get_mipmap_from_paa_vec(&d, 0).unwrap();
    assert_eq!((m.width, m.height), (4, 4));
    assert_eq!(m.data, vec![10, 11, 12]);
    let m = get_mipmap_from_paa_vec(&d, 1).unwrap();
    assert_eq!((m.width, m.height), (2, 2));
    assert_eq!(m.data, vec![9]);
}

#[test]
fn missing_mipmap_is_reported() {
    let d = container();
    assert_eq!(get_mipmap_from_paa_vec(&d, 2), Err(DecodeError::MipmapNotFound));
}

#[test]
fn cut_container_is_truncated() {
    let d = container();
    let cut = d[..d.len() - 9].to_vec();
    assert_eq!(get_mipmap_from_paa_vec(&cut, 1), Err(DecodeError::TruncatedInput));
    assert_eq!(get_mipmap_from_paa_vec(&vec![1], 0), Err(DecodeError::TruncatedInput));
}
