use destajo::consultas::{self, Valor};
use destajo::errors::AppError;
use destajo::models::{NuevaOperacion, NuevoRegistro, NuevoTrabajador, Operacion, Trabajador};
use destajo::routes::registros::FiltroFecha;
use destajo::routes::reportes::{FilaReporte, FiltroDia, RangoFecha};
use destajo::routes::{operaciones, registros, reportes, trabajadores};

fn es_uuid_v4(s: &str) -> bool {
    let c: Vec<char> = s.chars().collect();
    c.len() == 36
        && c.iter().enumerate().all(|(i, ch)| {
            if [8, 13, 18, 23].contains(&i) {
                *ch == '-'
            } else {
                ch.is_ascii_digit() || ('a'..='f').contains(ch)
            }
        })
        && c[14] == '4'
        && "89ab".contains(c[19])
}

fn texto(s: &str) -> Valor {
    Valor::Texto(s.to_string())
}

#[test]
fn crear_trabajador_recorta_el_nombre() {
    let body = NuevoTrabajador { nombre: "  María López ".to_string() };
    let t = trabajadores::crear_con(&body, "id-1".to_string(), "2026-08-16T10:00:00+00:00".to_string()).unwrap();
    assert_eq!(
        t,
        Trabajador {
            id: "id-1".to_string(),
            nombre: "María López".to_string(),
            activo: true,
            creado_en: "2026-08-16T10:00:00+00:00".to_string(),
        }
    );
}

#[test]
fn crear_trabajador_con_nombre_vacio() {
    for nombre in ["", "   ", "\t\n"] {
        let body = NuevoTrabajador { nombre: nombre.to_string() };
        match trabajadores::crear(&body) {
            Err(AppError::BadRequest(m)) => assert_eq!(m, "El nombre no puede estar vacío"),
            otro => panic!("{:?}", otro),
        }
    }
}

fn es_rfc3339_utc(s: &str) -> bool {
    let c: Vec<char> = s.chars().collect();
    let l = if c.first() == Some(&'+') {
        match c[1..].iter().position(|x| !x.is_ascii_digit()) {
            Some(p) => p + 1,
            None => return false,
        }
    } else {
        4
    };
    if (l != 4 && l < 6) || c.len() < l + 21 || !s.ends_with("+00:00") {
        return false;
    }
    let d = |i: usize| c[i].is_ascii_digit();
    let n = |i: usize| c[i].to_digit(10).unwrap() * 10 + c[i + 1].to_digit(10).unwrap();
    let frac = &c[l + 15..c.len() - 6];
    (0..4).all(|i| l != 4 || d(i))
        && c[l] == '-' && c[l + 3] == '-' && c[l + 6] == 'T' && c[l + 9] == ':' && c[l + 12] == ':'
        && [1, 2, 4, 5, 7, 8, 10, 11, 13, 14].iter().all(|k| d(l + k))
        && (1..=12).contains(&n(l + 1)) && (1..=31).contains(&n(l + 4))
        && n(l + 7) <= 23 && n(l + 10) <= 59 && n(l + 13) <= 59
        && (frac.is_empty()
            || ([4, 7, 10].contains(&frac.len()) && frac[0] == '.' && frac[1..].iter().all(|x| x.is_ascii_digit())))
}

#[test]
fn crear_trabajador_da_uuid_y_hora_utc() {
    let body = NuevoTrabajador { nombre: "Ana".to_string() };
    let t = trabajadores::crear(&body).unwrap();
    assert!(es_uuid_v4(&t.id), "{}", t.id);
    assert!(es_rfc3339_utc(&t.creado_en), "{}", t.creado_en);
    assert_eq!(t.nombre, "Ana");
    assert!(t.activo);
    let otro = trabajadores::crear(&body).unwrap();
    assert_ne!(t.id, otro.id);
}

#[test]
fn trabajador_no_encontrado() {
    match trabajadores::encontrado(None) {
        Err(AppError::NotFound(m)) => assert_eq!(m, "Trabajador no encontrado"),
        otro => panic!("{:?}", otro),
    }
    let t = Trabajador { id: "a".into(), nombre: "b".into(), activo: false, creado_en: "c".into() };
    assert_eq!(trabajadores::encontrado(Some(t.clone())).unwrap(), t);
}

#[test]
fn crear_operacion() {
    let body = NuevaOperacion { nombre: " Costura lateral ".to_string(), tarifa: "3.50".to_string() };
    let o = operaciones::crear_con(&body, "op-1".to_string()).unwrap();
    assert_eq!(
        o,
        Operacion {
            id: "op-1".to_string(),
            nombre: "Costura lateral".to_string(),
            tarifa: "3.50".to_string(),
            activa: true,
        }
    );
    let o = operaciones::crear(&body).unwrap();
    assert!(es_uuid_v4(&o.id));
}

#[test]
fn crear_operacion_errores_en_orden() {
    let body = NuevaOperacion { nombre: " ".to_string(), tarifa: "abc".to_string() };
    match operaciones::crear(&body) {
        Err(AppError::BadRequest(m)) => assert_eq!(m, "El nombre no puede estar vacío"),
        otro => panic!("{:?}", otro),
    }
    let body = NuevaOperacion { nombre: "Corte".to_string(), tarifa: "abc".to_string() };
    match operaciones::crear(&body) {
        Err(AppError::BadRequest(m)) => assert_eq!(m, "Tarifa inválida, debe ser un número"),
        otro => panic!("{:?}", otro),
    }
}

#[test]
fn cambio_de_tarifa() {
    let body = NuevaOperacion { nombre: "".to_string(), tarifa: "4.25".to_string() };
    assert!(operaciones::validar_cambio_de_tarifa(&body).is_ok());
    let body = NuevaOperacion { nombre: "Corte".to_string(), tarifa: "4,25".to_string() };
    match operaciones::validar_cambio_de_tarifa(&body) {
        Err(AppError::BadRequest(m)) => assert_eq!(m, "Tarifa inválida"),
        otro => panic!("{:?}", otro),
    }
    let c = operaciones::cambiar_tarifa("op-1", &NuevaOperacion { nombre: "".into(), tarifa: "4.25".into() }).unwrap();
    assert_eq!(c.sql, consultas::ACTUALIZAR_TARIFA);
    assert_eq!(c.parametros, vec![texto("4.25"), texto("op-1")]);
    match operaciones::cambiar_tarifa("op-1", &NuevaOperacion { nombre: "x".into(), tarifa: "4,25".into() }) {
        Err(AppError::BadRequest(m)) => assert_eq!(m, "Tarifa inválida"),
        otro => panic!("{:?}", otro.map(|c| c.sql)),
    }
    match operaciones::encontrada(None) {
        Err(AppError::NotFound(m)) => assert_eq!(m, "Operación no encontrada"),
        otro => panic!("{:?}", otro),
    }
}

fn nuevo_registro(cantidad: i64) -> NuevoRegistro {
    NuevoRegistro {
        trabajador_id: "t-1".to_string(),
        operacion_id: "op-1".to_string(),
        cantidad,
        fecha: "2026-08-16".to_string(),
        notas: Some("turno tarde".to_string()),
    }
}

#[test]
fn registro_con_cantidad_no_positiva() {
    for cantidad in [0, -1, i64::MIN] {
        match registros::validar(&nuevo_registro(cantidad)) {
            Err(AppError::BadRequest(m)) => assert_eq!(m, "La cantidad debe ser mayor a 0"),
            otro => panic!("{:?}", otro),
        }
    }
    assert!(registros::validar(&nuevo_registro(1)).is_ok());
    assert!(registros::validar(&nuevo_registro(i64::MAX)).is_ok());
}

#[test]
fn iniciar_creacion_de_registro() {
    let c = registros::iniciar_creacion(&nuevo_registro(45)).unwrap();
    assert_eq!(c.sql, consultas::TARIFA_ACTIVA);
    assert_eq!(c.parametros, vec![texto("op-1")]);
    match registros::iniciar_creacion(&nuevo_registro(0)) {
        Err(AppError::BadRequest(m)) => assert_eq!(m, "La cantidad debe ser mayor a 0"),
        otro => panic!("{:?}", otro.map(|c| c.sql)),
    }
}

#[test]
fn hora_rfc3339_reconocida() {
    assert!(es_rfc3339_utc("2026-08-16T10:04:05+00:00"));
    assert!(es_rfc3339_utc("2026-08-16T10:04:05.123456789+00:00"));
    assert!(!es_rfc3339_utc("2026-13-16T10:04:05+00:00"));
    assert!(!es_rfc3339_utc("2026-08-16T10:04:05Z"));
}

#[test]
fn registro_sin_tarifa_activa() {
    match registros::tarifa_encontrada(None) {
        Err(AppError::NotFound(m)) => assert_eq!(m, "Operación no encontrada o inactiva"),
        otro => panic!("{:?}", otro),
    }
    assert_eq!(registros::tarifa_encontrada(Some("3.50".into())).unwrap(), "3.50");
}

#[test]
fn crear_registro() {
    let body = nuevo_registro(45);
    let r = registros::crear_con(&body, "r-1".to_string(), "157.50".to_string());
    assert_eq!(r.id, "r-1");
    assert_eq!(r.trabajador_id, "t-1");
    assert_eq!(r.operacion_id, "op-1");
    assert_eq!(r.cantidad, 45);
    assert_eq!(r.total, "157.50");
    assert_eq!(r.fecha, "2026-08-16");
    assert_eq!(r.notas.as_deref(), Some("turno tarde"));
    let r = registros::crear(&NuevoRegistro { notas: None, ..body }, "1.00".to_string());
    assert!(es_uuid_v4(&r.id));
    assert_eq!(r.notas, None);
}

#[test]
fn eliminar_registro() {
    assert_eq!(registros::eliminado(1).unwrap(), "Registro eliminado");
    match registros::eliminado(0) {
        Err(AppError::NotFound(m)) => assert_eq!(m, "Registro no encontrado"),
        otro => panic!("{:?}", otro),
    }
}

#[test]
fn listar_registros_segun_filtro() {
    let f = |fecha: Option<&str>, t: Option<&str>| FiltroFecha {
        fecha: fecha.map(String::from),
        trabajador_id: t.map(String::from),
    };
    let c = registros::listar(&f(Some("2026-08-16"), Some("xxx")));
    assert_eq!(c.sql, consultas::REGISTROS_POR_FECHA_Y_TRABAJADOR);
    assert_eq!(c.parametros, vec![texto("2026-08-16"), texto("xxx")]);
    let c = registros::listar(&f(Some("2026-08-16"), None));
    assert_eq!(c.sql, consultas::REGISTROS_POR_FECHA);
    assert_eq!(c.parametros, vec![texto("2026-08-16")]);
    let c = registros::listar(&f(None, Some("xxx")));
    assert_eq!(c.sql, consultas::REGISTROS_POR_TRABAJADOR);
    assert_eq!(c.parametros, vec![texto("xxx")]);
    let c = registros::listar(&f(None, None));
    assert_eq!(c.sql, consultas::REGISTROS_RECIENTES);
    assert!(c.sql.contains("LIMIT 100"));
    assert!(c.parametros.is_empty());
}

#[test]
fn reportes() {
    let c = reportes::consulta_dia(&FiltroDia { fecha: "2026-08-16".into() });
    assert_eq!(c.sql, consultas::REPORTE_DIA);
    assert_eq!(c.parametros, vec![texto("2026-08-16")]);
    let c = reportes::consulta_quincena(&RangoFecha { desde: "2026-08-01".into(), hasta: "2026-08-15".into() });
    assert_eq!(c.sql, consultas::REPORTE_QUINCENA);
    assert_eq!(c.parametros, vec![texto("2026-08-01"), texto("2026-08-15")]);
    let filas = vec![
        FilaReporte { trabajador_id: "a".into(), nombre: "Ana".into(), total_piezas: Some(234), total_pago: "819.00".into() },
        FilaReporte { trabajador_id: "b".into(), nombre: "Beto".into(), total_piezas: None, total_pago: "0.00".into() },
    ];
    let r = reportes::resumenes(&filas);
    assert_eq!(r.len(), 2);
    assert_eq!(r[0].trabajador_id, "a");
    assert_eq!(r[0].nombre, "Ana");
    assert_eq!(r[0].total_piezas, 234);
    assert_eq!(r[0].total_pago, "819.00");
    assert_eq!(r[1].total_piezas, 0);
}

#[test]
fn insertar_registro_enlaza_los_siete_valores() {
    let r = registros::crear_con(&nuevo_registro(3), "r-9".into(), "10.50".into());
    let c = consultas::insertar_registro(&r);
    assert_eq!(c.sql, consultas::INSERTAR_REGISTRO);
    assert_eq!(
        c.parametros,
        vec![
            texto("r-9"), texto("t-1"), texto("op-1"), Valor::Entero(3), texto("10.50"),
            texto("2026-08-16"), texto("turno tarde"),
        ]
    );
    let r = registros::crear_con(&NuevoRegistro { notas: None, ..nuevo_registro(3) }, "r".into(), "1".into());
    assert_eq!(consultas::insertar_registro(&r).parametros[6], Valor::Nulo);
}

#[test]
fn actualizar_tarifa_enlaza_tarifa_y_luego_id() {
    let c = consultas::actualizar_tarifa("op-1", "4.00");
    assert_eq!(c.sql, consultas::ACTUALIZAR_TARIFA);
    assert_eq!(c.parametros, vec![texto("4.00"), texto("op-1")]);
}

#[test]
fn otras_consultas() {
    let t = Trabajador { id: "t".into(), nombre: "Ana".into(), activo: true, creado_en: "h".into() };
    let c = consultas::insertar_trabajador(&t);
    assert_eq!(c.sql, consultas::INSERTAR_TRABAJADOR);
    assert_eq!(c.parametros, vec![texto("t"), texto("Ana"), texto("h")]);
    let o = Operacion { id: "o".into(), nombre: "Corte".into(), tarifa: "2".into(), activa: true };
    let c = consultas::insertar_operacion(&o);
    assert_eq!(c.parametros, vec![texto("o"), texto("Corte"), texto("2")]);
    assert_eq!(consultas::buscar_trabajador("t").parametros, vec![texto("t")]);
    assert_eq!(consultas::alternar_trabajador("t").sql, consultas::ALTERNAR_TRABAJADOR);
    assert_eq!(consultas::tarifa_activa("o").sql, consultas::TARIFA_ACTIVA);
    assert_eq!(consultas::eliminar_registro("r").parametros, vec![texto("r")]);
    assert!(consultas::listar_trabajadores().parametros.is_empty());
    assert!(consultas::listar_operaciones().parametros.is_empty());
    assert!(consultas::crear_esquema().sql.contains("CREATE TABLE IF NOT EXISTS registros"));
}
