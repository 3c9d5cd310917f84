use retour::{is_within_range, RipRelativeCode};

fn read_disp(bytes: &[u8], index: usize) -> i32 {
  i32::from_le_bytes([bytes[index], bytes[index + 1], bytes[index + 2], bytes[index + 3]])
}

#[test]
fn range_limits() {
  assert!(is_within_range(0));
  assert!(is_within_range(0x7FFF_FFFF));
  assert!(is_within_range(-0x8000_0000));
  if usize::BITS == 64 {
    assert!(!is_within_range(0x8000_0000i64 as isize));
    assert!(!is_within_range(-0x8000_0001i64 as isize));
  }
}

#[test]
fn relocated_copy_reaches_the_same_target() {
  // mov eax, [rip+disp32], 6 bytes, no immediate
  let bytes = vec![0x8B, 0x05, 0x11, 0x22, 0x33, 0x44];
  let target = 0x10_0000usize;
  let code = RipRelativeCode::new(bytes.clone(), target, 0);
  assert_eq!(code.len(), 6);
  for offset in [0x0usize, 0x1234, 0x10_0000, 0x20_0000, 0x7000_0000] {
    assert!(code.is_relocatable(offset));
    let out = code.generate(offset);
    assert_eq!(out.len(), 6);
    assert_eq!(&out[..2], &bytes[..2]);
    let disp = read_disp(&out, 2) as isize;
    assert_eq!((offset + 6).wrapping_add_signed(disp), target);
  }
}

#[test]
fn exact_bytes_of_a_relocation() {
  let code = RipRelativeCode::new(vec![0x8B, 0x05, 0, 0, 0, 0], 0x2000, 0);
  // 0x2000 - 0x1000 - 6 = 0xFFA
  assert_eq!(code.generate(0x1000), vec![0x8B, 0x05, 0xFA, 0x0F, 0x00, 0x00]);
  // 0x2000 - 0x3000 - 6 = -0x1006
  assert_eq!(code.generate(0x3000), vec![0x8B, 0x05, 0xFA, 0xEF, 0xFF, 0xFF]);
}

#[test]
fn immediate_stays_after_displacement() {
  // cmp dword [rip+disp32], 5
  let code = RipRelativeCode::new(vec![0x83, 0x3D, 0, 0, 0, 0, 0x05], 0x5000, 1);
  let out = code.generate(0x4000);
  // 0x5000 - 0x4000 - 7 = 0xFF9
  assert_eq!(out, vec![0x83, 0x3D, 0xF9, 0x0F, 0x00, 0x00, 0x05]);
}

#[test]
fn too_far_is_not_relocatable() {
  if usize::BITS == 64 {
    let far = 0x1_0000_0000u64 as usize;
    let code = RipRelativeCode::new(vec![0x8B, 0x05, 0, 0, 0, 0], far, 0);
    assert!(!code.is_relocatable(0));
    assert!(code.is_relocatable(far));
    let code = RipRelativeCode::new(vec![0x8B, 0x05, 0, 0, 0, 0], 0, 0);
    assert!(!code.is_relocatable(far));
  }
}

#[test]
fn too_short_is_not_relocatable() {
  let code = RipRelativeCode::new(vec![0x8B, 0x05, 0], 0x1000, 0);
  assert!(!code.is_relocatable(0x1000));
  let code = RipRelativeCode::new(vec![0x8B, 0x05, 0, 0, 0, 0], 0x1000, 4);
  assert!(!code.is_relocatable(0x1000));
}

#[test]
fn relocation_in_place_keeps_the_bytes() {
  // mov eax, [rip+0x10] at 0x1000 refers to 0x1016
  let bytes = vec![0x8B, 0x05, 0x10, 0x00, 0x00, 0x00];
  let code = RipRelativeCode::new(bytes.clone(), 0x1016, 0);
  assert!(code.is_relocatable(0x1000));
  assert_eq!(code.generate(0x1000), bytes);
  // a negative displacement: [rip-0x20] at 0x5000 refers to 0x4FE6
  let bytes = vec![0x8B, 0x05, 0xE0, 0xFF, 0xFF, 0xFF];
  let code = RipRelativeCode::new(bytes.clone(), 0x4FE6, 0);
  assert_eq!(code.generate(0x5000), bytes);
}
