//! Election lifecycle management: user admission, per-election enrollment,
//! vote casting, memoized results and reporting, with every state change
//! stated as a contract over the library's own data model.
//!
//! The host supplies the caller of each operation and the current time as plain
//! values; nothing here reads them on its own.

mod cuenta;
mod eleccion;
mod externos;
mod leyes;
mod mensajes;
mod reporte;
mod simulado;
mod sistema;

pub use cuenta::AccountId;
pub use eleccion::{
    es_primer_votante, es_votante, votos_emitidos, votos_por_candidato, CandidatoConteo, Eleccion,
    Resultados, Votante, TIPO_DE_USUARIO,
};
pub use externos::milisegundos_de_fecha;
pub use leyes::{
    lema_cola_de_eleccion_fifo, lema_cola_global_fifo, lema_conserva_resultados_transitiva,
    lema_ingreso_al_final, lema_ingreso_con_votacion_iniciada, lema_ingreso_tras_el_cierre,
    lema_numeracion_se_conserva, lema_numero_de_candidato, lema_operaciones_conservan_resultados,
    lema_primer_votante, lema_procesar_conserva_roles, lema_registro_al_final,
    lema_registro_conserva_roles, lema_resultados_idempotentes, lema_resultados_tras_operaciones,
    lema_un_solo_voto, lema_votante_que_ya_voto, lema_votar_conserva_resultados,
    lema_votar_conserva_todos_los_resultados, lema_votos_en_primer_registro,
};
pub use mensajes::{
    decimal, digito, escribir_decimal, exito_con, falla_con, hexadecimal, ERRORES,
};
pub use reporte::{
    division_hacia_arriba, elegir_ganador, fila_con_perfil, filas_con_perfiles, filas_de_resultado,
    filas_de_votantes, orden_estable, ordenado_por_votos, ordenar_por_votos, participacion,
    perfil_desconocido, perfil_vacio, ranking_con_perfiles, unir_perfil, vista_opcional,
    vista_perfil, votos_efectivos, DatoCandidato, DatoVotante, Perfil, Reporte,
};
pub use simulado::{
    candidatos_de_prueba, cuenta_uniforme, filas_de_prueba, perfil_de_prueba, ranking_de_prueba,
    votantes_de_prueba, ReporteFake, SistemaEleccionesFake,
};
pub use sistema::{
    eleccion_nueva, es_primer_perfil, ficha, ficha_solicitud, tiene_perfil, SistemaElecciones,
    Usuario, FORMATO_FECHA,
};
