use destajo::numero::es_numero_f64;

fn como_f64(s: &str) -> bool {
    s.parse::<f64>().is_ok()
}

#[test]
fn tarifas_decimales_aceptadas() {
    for s in ["12.50", "3.50", "0", "7", "-2", "+3.5", ".5", "5.", "1e3", "1E-3", "2.5e+10"] {
        assert!(es_numero_f64(s), "{:?}", s);
    }
}

#[test]
fn palabras_especiales_aceptadas() {
    for s in ["inf", "-inf", "+Infinity", "INFINITY", "NaN", "nan", "-NAN", "iNf"] {
        assert!(es_numero_f64(s), "{:?}", s);
    }
}

#[test]
fn textos_que_no_son_numeros() {
    for s in [
        "", " ", "abc", "12,50", "1.2.3", ".", "+", "-", "e5", "1e", "1e+", "1 ", " 1",
        "$10", "1_000", "infinit", "infinityy", "nana", "+-1", "1e5.5", "0x10", "١",
    ] {
        assert!(!es_numero_f64(s), "{:?}", s);
    }
}

#[test]
fn coincide_con_parse_f64() {
    let piezas = ["", "+", "-", "1", "12", ".", "e", "E", "5", "i", "n", "a", "f", " ", "x"];
    for a in piezas {
        for b in piezas {
            for c in piezas {
                let s = format!("{}{}{}", a, b, c);
                assert_eq!(es_numero_f64(&s), como_f64(&s), "{:?}", s);
            }
        }
    }
    for s in ["inf", "infinity", "nan", "InFiNiTy", "-infinity", "+nan", "1.e5", ".e5", "00.00e00"] {
        assert_eq!(es_numero_f64(s), como_f64(s), "{:?}", s);
    }
}

#[test]
fn tarifa_aceptada_ya_esta_recortada() {
    for s in ["12.50", "-inf", "1e3", "5."] {
        assert!(es_numero_f64(s));
        assert_eq!(s.trim(), s);
    }
    assert!(!es_numero_f64(" 12.50"));
    assert!(!es_numero_f64("12.50\n"));
}
