use destajo::errors::{no_encontrado, peticion_invalida, AppError};

#[test]
fn no_encontrado_responde_404_con_su_mensaje() {
    let (codigo, mensaje) = AppError::NotFound("Trabajador no encontrado".to_string()).respuesta();
    assert_eq!(codigo, 404);
    assert_eq!(mensaje, "Trabajador no encontrado");
}

#[test]
fn peticion_invalida_responde_400_con_su_mensaje() {
    let (codigo, mensaje) = AppError::BadRequest("Tarifa inválida".to_string()).respuesta();
    assert_eq!(codigo, 400);
    assert_eq!(mensaje, "Tarifa inválida");
}

#[test]
fn errores_del_servidor_no_muestran_el_detalle() {
    let (codigo, mensaje) = AppError::Database("no such table: registros".to_string()).respuesta();
    assert_eq!(codigo, 500);
    assert_eq!(mensaje, "Error de base de datos");
    let (codigo, mensaje) = AppError::Internal("disco lleno".to_string()).respuesta();
    assert_eq!(codigo, 500);
    assert_eq!(mensaje, "Error interno");
}

#[test]
fn constructores_de_errores() {
    assert!(matches!(no_encontrado("x"), AppError::NotFound(m) if m == "x"));
    assert!(matches!(peticion_invalida("y"), AppError::BadRequest(m) if m == "y"));
}
