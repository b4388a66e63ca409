use milkv::fip::{
    align_vec, build_fip_image, calc_check_sum, dump_image, make_image, DumpError, FipParts, LoaderKind, U32Le, U64Le,
};

#[test]
fn u32le_keeps_value_and_bytes() {
    let v = U32Le::new(0x1234_5678);
    assert_eq!(v.get(), 0x1234_5678);
    assert_eq!(v.bytes(), [0x78, 0x56, 0x34, 0x12]);
}

#[test]
fn u64le_keeps_value_and_bytes() {
    let v = U64Le::new(0x0102_0304_0506_0708);
    assert_eq!(v.get(), 0x0102_0304_0506_0708);
    assert_eq!(v.bytes(), [8, 7, 6, 5, 4, 3, 2, 1]);
}

#[test]
fn check_sum_of_nothing_is_the_tag() {
    assert_eq!(calc_check_sum(&[]), 0xcafe_0000);
}

#[test]
fn check_sum_is_crc16_xmodem_tagged() {
    assert_eq!(calc_check_sum(b"123456789"), 0xcafe_31c3);
}

#[test]
fn align_pads_to_512() {
    let mut v = vec![1u8; 3];
    align_vec(&mut v);
    assert_eq!(v.len(), 512);
    assert_eq!(&v[..3], &[1, 1, 1]);
    assert!(v[3..].iter().all(|b| *b == 0));
    let mut w = vec![2u8; 512];
    align_vec(&mut w);
    assert_eq!(w.len(), 512);
}

#[test]
fn single_stage_image_layout() {
    let file = build_fip_image(vec![0xaa; 10], vec![0xbb; 600]);
    // parameter block, four signature blocks, then the padded images
    assert_eq!(&file[0..8], b"CVBL01\n\0");
    assert_eq!(file.len(), 4096 + 512 + 1024);
    assert_eq!(file[4096], 0xaa);
    assert_eq!(file[4096 + 10], 0);
    assert_eq!(file[4096 + 512], 0xbb);
    let stored = u32::from_le_bytes([file[12], file[13], file[14], file[15]]);
    assert_eq!(stored, calc_check_sum(&file[16..2048]));
    let word = |o: usize| u32::from_le_bytes([file[o], file[o + 1], file[o + 2], file[o + 3]]);
    assert_eq!(word(188), 760);
    assert_eq!(word(216), 512);
    assert_eq!(word(212), calc_check_sum(&file[4096..4096 + 512]));
    assert_eq!(word(228), 1024);
    assert!(file[2048..4096].iter().all(|b| *b == 0));
}

fn parts() -> FipParts {
    FipParts {
        nand_info: vec![1; 128],
        nor_info: vec![2; 36],
        fip_flags: vec![3; 8],
        blcp_img: vec![4; 100],
        bl2_img: vec![5; 700],
        chip_conf: vec![6; 760],
        bl_ek: vec![7; 32],
        root_pk: vec![8; 512],
        bl_pk: vec![9; 512],
        ddr_param: vec![10; 20],
        blcp_2nd: vec![11; 30],
        monitor: vec![12; 40],
        ldr2nd: vec![13; 50],
    }
}

#[test]
fn dump_accepts_made_image() {
    let file = make_image(parts());
    let d = dump_image(&file).expect("a made image passes the checks");
    assert_eq!(d.blcp.1 - d.blcp.0, 512);
    assert_eq!(d.bl2.1 - d.bl2.0, 1024);
    assert_eq!(&file[d.blcp.0..d.blcp.0 + 100], &[4u8; 100][..]);
    assert_eq!(&file[d.bl2.0..d.bl2.0 + 700], &[5u8; 700][..]);
    // each image is padded to 512 bytes
    assert_eq!(d.ddr_param.1 - d.ddr_param.0, 512);
    assert_eq!(&file[d.ddr_param.0..d.ddr_param.0 + 20], &[10u8; 20][..]);
    assert_eq!(&file[d.blcp_2nd.0..d.blcp_2nd.0 + 30], &[11u8; 30][..]);
    assert_eq!(&file[d.monitor.0..d.monitor.0 + 40], &[12u8; 40][..]);
    assert_eq!(d.ldr_kind, LoaderKind::Orig);
    assert_eq!(d.ldr2nd_body.1, file.len());
}

#[test]
fn dump_refuses_short_file() {
    assert_eq!(dump_image(&[0u8; 100]).unwrap_err(), DumpError::Truncated);
}

#[test]
fn dump_refuses_missing_magic() {
    assert_eq!(dump_image(&vec![0u8; 8192]).unwrap_err(), DumpError::Param1Magic);
}

#[test]
fn dump_refuses_corrupt_parameter_block() {
    let mut file = make_image(parts());
    file[20] ^= 0xff;
    assert_eq!(dump_image(&file).unwrap_err(), DumpError::Param1Checksum);
}

#[test]
fn dump_refuses_corrupt_loader() {
    let mut file = make_image(parts());
    let last = file.len() - 1;
    file[last] ^= 0xff;
    assert_eq!(dump_image(&file).unwrap_err(), DumpError::LoaderChecksum);
}
