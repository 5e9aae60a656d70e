use vulkan_renderer::internal::{InternalVulkan, ShaderCodeError, SPIRV_MAGIC};

fn little_endian(words: &[u32]) -> Vec<u8> {
    words.iter().flat_map(|w| w.to_le_bytes()).collect()
}

fn big_endian(words: &[u32]) -> Vec<u8> {
    words.iter().flat_map(|w| w.to_be_bytes()).collect()
}

#[test]
fn spirv_in_either_byte_order() {
    let words = [SPIRV_MAGIC, 0x0001_0000, 0xdead_beef];
    let code = InternalVulkan::create_shader_code(&little_endian(&words), &big_endian(&words)).unwrap();
    assert_eq!(code.vertex, words.to_vec());
    assert_eq!(code.fragment, words.to_vec());
}

#[test]
fn spirv_magic_number() {
    assert_eq!(SPIRV_MAGIC, 0x0723_0203);
    assert_eq!(little_endian(&[SPIRV_MAGIC]), vec![0x03, 0x02, 0x23, 0x07]);
}

#[test]
fn vertex_shader_is_checked_first() {
    let good = little_endian(&[SPIRV_MAGIC, 7]);
    let bad_length = vec![0x03, 0x02, 0x23, 0x07, 0x00];
    let bad_magic = little_endian(&[0x1234_5678, 7]);
    assert_eq!(InternalVulkan::create_shader_code(&bad_length, &good).err(), Some(ShaderCodeError::Vertex));
    assert_eq!(InternalVulkan::create_shader_code(&bad_magic, &bad_magic).err(), Some(ShaderCodeError::Vertex));
    assert_eq!(InternalVulkan::create_shader_code(&good, &bad_magic).err(), Some(ShaderCodeError::Fragment));
    assert_eq!(InternalVulkan::create_shader_code(&good, &Vec::new()).err(), Some(ShaderCodeError::Fragment));
}
