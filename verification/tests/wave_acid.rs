use chunkdump::wave::acid::{
    check_bit_mask_position, get_file_type_from_bytes, AcidFields, FileType,
    DISK_BASED_BIT_POSITION,
};

#[test]
fn correct_file_type_struct_is_returned_from_file_type_integers() {
    assert_eq!(
        get_file_type_from_bytes(0),
        FileType { one_shot: false, root_note: false, stretch: false, disk_based: false, acidizer: false }
    );

    assert_eq!(
        get_file_type_from_bytes(31),
        FileType { one_shot: true, root_note: true, stretch: true, disk_based: true, acidizer: true }
    );
}

#[test]
fn check_bit_mask_position_is_returned_from_file_type_integers() {
    let correct_disk_based_bit_position_filetype = 8;
    let incorrect_disk_based_bit_position_filetype = 7;
    assert!(check_bit_mask_position(correct_disk_based_bit_position_filetype, DISK_BASED_BIT_POSITION));
    assert!(!check_bit_mask_position(incorrect_disk_based_bit_position_filetype, DISK_BASED_BIT_POSITION));
}

#[test]
fn acid_fields_are_decoded() {
    let mut data = vec![0x03, 0, 0, 0, 60, 0, 0x80, 0];
    data.extend_from_slice(&0u32.to_le_bytes());
    data.extend_from_slice(&8u32.to_le_bytes());
    data.extend_from_slice(&4u16.to_le_bytes());
    data.extend_from_slice(&4u16.to_le_bytes());
    data.extend_from_slice(&120.0f32.to_bits().to_le_bytes());
    let fields = AcidFields::new(data).unwrap().metadata;
    assert!(fields.file_type.one_shot && fields.file_type.root_note && !fields.file_type.stretch);
    assert_eq!(fields.loop_on, "OneShot");
    assert_eq!(fields.root_note_set, "Root Note Set");
    assert_eq!(fields.stretch, "Stretch is Off");
    assert_eq!(fields.disk_based, "Ram Based");
    assert_eq!(fields.acidizer, "Acidizer is Off");
    assert_eq!(fields.root_note, "C3");
    assert_eq!(fields.mystery_one, 128);
    assert_eq!(fields.number_of_beats, 8);
    assert_eq!(fields.meter_denominator, 4);
    assert_eq!(fields.meter_numerator, 4);
    assert_eq!(f32::from_bits(fields.tempo_bits), 120.0);
}

#[test]
fn short_acid_chunk_is_refused() {
    assert!(AcidFields::new(vec![1, 2, 3]).is_err());
}
