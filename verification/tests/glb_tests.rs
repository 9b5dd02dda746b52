use mesh_tools::glb::{document_glb_bytes, export_glb_bytes, GlbWriter, GLB_MAGIC, GLB_CHUNK_TYPE_JSON, GLB_CHUNK_TYPE_BIN};
use mesh_tools::bytes::{padding_for, push_u32_le, push_u16_le, append_u32s_le, append_arrays_le};

fn read_u32(bytes: &[u8], at: usize) -> u32 {
    u32::from_le_bytes([bytes[at], bytes[at + 1], bytes[at + 2], bytes[at + 3]])
}

#[test]
fn glb_writer_frames_both_chunks_with_zero_padding() {
    let mut writer = GlbWriter::new();
    writer.set_json("{}".to_string());
    assert_eq!(writer.add_binary_data(&[1, 2, 3]), 0);
    assert_eq!(writer.add_binary_data(&[4]), 3);
    let mut out = Vec::new();
    writer.write(&mut out);
    assert_eq!(out.len(), 12 + 8 + 4 + 8 + 4);
    assert_eq!(&out[0..4], b"glTF");
    assert_eq!(read_u32(&out, 0), GLB_MAGIC);
    assert_eq!(read_u32(&out, 4), 2);
    assert_eq!(read_u32(&out, 8), 36);
    assert_eq!(read_u32(&out, 12), 4);
    assert_eq!(read_u32(&out, 16), GLB_CHUNK_TYPE_JSON);
    assert_eq!(&out[20..24], &[b'{', b'}', 0, 0]);
    assert_eq!(read_u32(&out, 24), 4);
    assert_eq!(read_u32(&out, 28), GLB_CHUNK_TYPE_BIN);
    assert_eq!(&out[32..36], &[1, 2, 3, 4]);
}

#[test]
fn glb_writer_padded_length_and_padding() {
    assert_eq!(GlbWriter::padded_length(&[]), 0);
    assert_eq!(GlbWriter::padded_length(&[1]), 4);
    assert_eq!(GlbWriter::padded_length(&[1, 2, 3, 4]), 4);
    assert_eq!(GlbWriter::padded_length(&[1, 2, 3, 4, 5]), 8);
    let mut out = vec![9u8];
    GlbWriter::write_padding(&mut out, &[1, 2, 3, 4, 5]);
    assert_eq!(out, vec![9, 0, 0, 0]);
    let mut aligned = Vec::new();
    GlbWriter::write_padding(&mut aligned, &[1, 2, 3, 4]);
    assert!(aligned.is_empty());
}

#[test]
fn document_glb_pads_json_with_spaces_and_skips_empty_binary() {
    let out = document_glb_bytes(b"{\"a\":1}", &[]);
    assert_eq!(out.len(), 12 + 8 + 8);
    assert_eq!(read_u32(&out, 8), 28);
    assert_eq!(read_u32(&out, 12), 8);
    assert_eq!(&out[20..28], b"{\"a\":1} ");
}

#[test]
fn document_glb_with_binary_chunk() {
    let out = document_glb_bytes(b"{}", &[7, 8, 9, 10, 11]);
    assert_eq!(out.len(), 12 + 8 + 4 + 8 + 8);
    assert_eq!(&out[20..24], b"{}  ");
    assert_eq!(read_u32(&out, 24), 8);
    assert_eq!(read_u32(&out, 28), GLB_CHUNK_TYPE_BIN);
    assert_eq!(&out[32..40], &[7, 8, 9, 10, 11, 0, 0, 0]);
}

#[test]
fn export_glb_keeps_empty_binary_chunk() {
    let out = export_glb_bytes(b"{}", &[]);
    assert_eq!(out.len(), 12 + 8 + 4 + 8);
    assert_eq!(read_u32(&out, 8), 32);
    assert_eq!(read_u32(&out, 24), 0);
    assert_eq!(read_u32(&out, 28), GLB_CHUNK_TYPE_BIN);
}

#[test]
fn little_endian_helpers() {
    let mut out = Vec::new();
    push_u32_le(&mut out, 0x0403_0201);
    push_u16_le(&mut out, 0x0605);
    append_u32s_le(&mut out, &[0x0A09_0807]);
    append_arrays_le(&mut out, &[[1u32, 2u32]]);
    assert_eq!(out, vec![1, 2, 3, 4, 5, 6, 7, 8, 9, 10, 1, 0, 0, 0, 2, 0, 0, 0]);
    assert_eq!(padding_for(0), 0);
    assert_eq!(padding_for(5), 3);
    assert_eq!(padding_for(8), 0);
}
