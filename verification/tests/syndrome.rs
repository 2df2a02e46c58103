use traps::syndrome::{
    exception_class, immediate, CLASS_SVC_AARCH32, CLASS_SVC_AARCH64, CLASS_WFI_WFE,
};
use traps::Syndrome;

fn raw(class: u8, payload: u32) -> u32 {
    ((class as u32) << 26) | (payload & 0x03ff_ffff)
}

#[test]
fn class_constants_follow_the_architecture() {
    assert_eq!(CLASS_WFI_WFE, 0b000001);
    assert_eq!(CLASS_SVC_AARCH32, 0b010001);
    assert_eq!(CLASS_SVC_AARCH64, 0b010101);
}

#[test]
fn exception_class_is_the_top_six_bits() {
    assert_eq!(exception_class(0), 0);
    assert_eq!(exception_class(0x03ff_ffff), 0);
    assert_eq!(exception_class(0x0400_0000), 1);
    assert_eq!(exception_class(0x5600_002a), 0x15);
    assert_eq!(exception_class(0x9200_0045), 0x24);
    assert_eq!(exception_class(0xfc00_0000), 63);
    assert_eq!(exception_class(0xffff_ffff), 63);
}

#[test]
fn immediate_is_the_low_sixteen_bits() {
    assert_eq!(immediate(0), 0);
    assert_eq!(immediate(0x5600_002a), 42);
    assert_eq!(immediate(0x0001_0000), 0);
    assert_eq!(immediate(0xffff_ffff), 0xffff);
    assert_eq!(immediate(0x1234_5678), 0x5678);
}

#[test]
fn decode_svc_from_aarch64() {
    assert_eq!(Syndrome::decode(0x5600_002a), Syndrome::Svc(42));
    assert_eq!(Syndrome::decode(0x5400_0000), Syndrome::Svc(0));
}

#[test]
fn decode_svc_from_aarch32() {
    assert_eq!(Syndrome::decode(0x4600_0007), Syndrome::Svc(7));
    assert_eq!(Syndrome::decode(0x4400_0100), Syndrome::Svc(256));
}

#[test]
fn decode_svc_passes_the_whole_immediate_through() {
    assert_eq!(Syndrome::decode(0x5600_ffff), Syndrome::Svc(0xffff));
    assert_eq!(Syndrome::decode(0x5600_8000), Syndrome::Svc(0x8000));
    assert_eq!(Syndrome::decode(0x5600_0001), Syndrome::Svc(1));
}

#[test]
fn decode_svc_ignores_the_bits_between_class_and_immediate() {
    assert_eq!(Syndrome::decode(0x57ff_0003), Syndrome::Svc(3));
    assert_eq!(Syndrome::decode(0x5401_0003), Syndrome::Svc(3));
    assert_eq!(Syndrome::decode(0x5400_0003), Syndrome::Svc(3));
}

#[test]
fn decode_trapped_wait() {
    assert_eq!(Syndrome::decode(0x0400_0000), Syndrome::WfiWfe);
    assert_eq!(Syndrome::decode(0x0600_0001), Syndrome::WfiWfe);
    assert_eq!(Syndrome::decode(0x07ff_ffff), Syndrome::WfiWfe);
}

#[test]
fn decode_everything_else_is_other() {
    assert_eq!(Syndrome::decode(0), Syndrome::Other);
    assert_eq!(Syndrome::decode(0x0000_002a), Syndrome::Other);
    assert_eq!(Syndrome::decode(0x9200_0045), Syndrome::Other);
    assert_eq!(Syndrome::decode(0x8600_0000), Syndrome::Other);
    assert_eq!(Syndrome::decode(0xf200_0001), Syndrome::Other);
    assert_eq!(Syndrome::decode(0x5a00_0001), Syndrome::Other);
    assert_eq!(Syndrome::decode(0x5e00_0001), Syndrome::Other);
    assert_eq!(Syndrome::decode(0xffff_ffff), Syndrome::Other);
}

#[test]
fn decode_is_total_over_every_class() {
    let payloads = [0u32, 1, 42, 0xffff, 0x1_0000, 0x0200_0000, 0x03ff_ffff];
    for class in 0u8..64 {
        for payload in payloads {
            let value = raw(class, payload);
            let expected = match class {
                0x11 | 0x15 => Syndrome::Svc((payload & 0xffff) as u16),
                0x01 => Syndrome::WfiWfe,
                _ => Syndrome::Other,
            };
            assert_eq!(Syndrome::decode(value), expected, "class {class:#x}, payload {payload:#x}");
        }
    }
}

#[test]
fn decode_twice_gives_the_same() {
    for value in [0u32, 0x0400_0000, 0x5600_002a, 0x4600_0007, 0x9200_0045, 0xffff_ffff] {
        let first = Syndrome::decode(value);
        let second = Syndrome::decode(value);
        assert_eq!(first, second);
    }
}

#[test]
fn from_decodes() {
    assert_eq!(Syndrome::from(0x5600_002a), Syndrome::Svc(42));
    assert_eq!(Syndrome::from(0x0400_0000), Syndrome::WfiWfe);
    assert_eq!(Syndrome::from(0x9200_0045), Syndrome::Other);
    let converted: Syndrome = 0x4400_0001u32.into();
    assert_eq!(converted, Syndrome::Svc(1));
}
