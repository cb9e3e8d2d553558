use luhbots::chipid::{ChipId, EmbeddedProcessor, Family, FlashMemoryType, Model};

#[test]
fn sam4e16e_is_decoded() {
    let id = ChipId::new(0xA3CC_0CE0, 0x0012_0200);
    assert_eq!(id.version(), 0);
    assert_eq!(id.embedded_processor(), Some(EmbeddedProcessor::CortexM4));
    assert_eq!(id.flash1_byte_size(), Some(1024 * 1024));
    assert_eq!(id.flash2_byte_size(), None);
    assert_eq!(id.internal_sram_size(), Some(128 * 1024));
    assert_eq!(id.family(), Some(Family::AtSam4e));
    assert_eq!(id.model(), Some(Model::AtSam4e16e));
    assert_eq!(id.flash_memory_type(), Some(FlashMemoryType::Flash));
}

#[test]
fn sam4e_models_come_from_the_extension_register() {
    assert_eq!(ChipId::new(0xA3CC_0CE0, 0x0012_0209).model(), Some(Model::AtSam4e8c));
    assert_eq!(ChipId::new(0xA3CC_0CE0, 0x0012_0201).model(), Some(Model::AtSam4e16c));
    // An unknown extension keeps the family but names no model.
    let id = ChipId::new(0xA3CC_0CE0, 0x1234_5678);
    assert_eq!((id.family(), id.model()), (Some(Family::AtSam4e), None));
}

#[test]
fn sam4s_and_sam4n_models_come_from_the_identifier() {
    let id = ChipId::new(0x28AC_0CE0, 0);
    assert_eq!((id.family(), id.model()), (Some(Family::AtSam4s), Some(Model::AtSam4s16c)));
    assert_eq!(id.internal_sram_size(), Some(128 * 1024));
    let id = ChipId::new(0x293B_0AE0, 0);
    assert_eq!((id.family(), id.model()), (Some(Family::AtSam4n), Some(Model::AtSam4n8a)));
    assert_eq!(id.flash1_byte_size(), Some(512 * 1024));
    assert_eq!(id.embedded_processor(), Some(EmbeddedProcessor::CortexM4));
}

#[test]
fn unknown_codes_decode_to_nothing() {
    // Version 3, processor code 0, flash code 4, flash type code 7.
    let id = ChipId::new(0x7000_0403, 0);
    assert_eq!(id.version(), 3);
    assert_eq!(id.embedded_processor(), None);
    assert_eq!(id.flash1_byte_size(), None);
    assert_eq!(id.internal_sram_size(), Some(48 * 1024));
    assert_eq!(id.flash_memory_type(), None);
    assert_eq!((id.family(), id.model()), (None, None));
}
