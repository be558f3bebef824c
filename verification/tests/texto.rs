use destajo::texto::{caracteres, espacio, recortar};

#[test]
fn recortar_quita_espacios_de_los_extremos() {
    assert_eq!(recortar("  María López  "), "María López");
    assert_eq!(recortar("\tCostura lateral\n"), "Costura lateral");
    assert_eq!(recortar("sin espacios"), "sin espacios");
}

#[test]
fn recortar_conserva_espacios_interiores() {
    assert_eq!(recortar("  a  b  "), "a  b");
}

#[test]
fn recortar_solo_espacios_da_vacio() {
    assert_eq!(recortar(""), "");
    assert_eq!(recortar("   "), "");
    assert_eq!(recortar("\u{3000}\u{A0}\u{2009}\r\n"), "");
}

#[test]
fn recortar_espacios_unicode() {
    assert_eq!(recortar("\u{3000}Ana\u{A0}"), "Ana");
    assert_eq!(recortar("\u{85}Ana\u{2028}"), "Ana");
}

#[test]
fn recortar_coincide_con_trim() {
    let casos = [
        "", " ", "x", " x", "x ", " x y ", "\u{200B}x\u{200B}", "\u{1680}ñ\u{205F}",
        "\u{180E}a", "\u{FEFF}b\u{FEFF}", "\x0B\x0Cc\x1C", "  \t \u{2007} d \u{202F}",
    ];
    for c in casos {
        assert_eq!(recortar(c), c.trim(), "caso {:?}", c);
    }
}

#[test]
fn recortar_es_idempotente() {
    for c in ["  a ", "\u{3000} b c \t", "", "   "] {
        let una = recortar(c);
        assert_eq!(recortar(&una), una);
    }
}

#[test]
fn espacio_coincide_con_is_whitespace() {
    for n in 0u32..0x3100 {
        if let Some(c) = char::from_u32(n) {
            assert_eq!(espacio(c), c.is_whitespace(), "U+{:04X}", n);
        }
    }
}

#[test]
fn caracteres_en_orden() {
    assert_eq!(caracteres("añb"), vec!['a', 'ñ', 'b']);
    assert_eq!(caracteres(""), Vec::<char>::new());
}
