use vstd::prelude::*;
use vstd::string::StringExecFns;

verus! {

/// Every failure an operation can report, one variant per distinct message.
#[allow(non_camel_case_types)]
#[derive(Clone, Copy, Debug, PartialEq, Eq, Structural)]
pub enum ERRORES {
    NO_ES_ADMINISTRADOR,
    USUARIO_NO_REGISTRADO,
    CANDIDATO_INEXISTENTE,
    NO_REGISTRADO_EN_ELECCION,
    YA_VOTO,
    OVERFLOW_VOTO,
    SIN_USUARIOS_PENDIENTES,
    OVERFLOW_ID_CANDIDATO,
    ELECCION_INEXISTENTE,
    YA_PENDIENTE_EN_ELECCION,
    VOTACION_YA_COMENZO,
    ELECCION_FINALIZADA,
    YA_RECHAZADO_EN_ELECCION,
    REGISTRO_NO_ACTIVADO,
    ES_ADMINISTRADOR,
    SOLICITUD_RECHAZADA,
    YA_REGISTRADO,
    YA_PENDIENTE,
    FECHA_INICIAL_INVALIDA,
    FECHA_FINAL_INVALIDA,
    OVERFLOW_ELECCION,
    VOTACION_FINALIZADA,
    VOTACION_YA_INICIADA,
    TODAVIA_NO_ES_FECHA,
    ELECCION_NO_ENCONTRADA,
    ELECCION_NO_ENCONTRADA_CONSULTA,
    CANDIDATO_NO_ENCONTRADO,
    PERFIL_CANDIDATO_FALTANTE,
    REGISTRO_YA_ACTIVADO,
    REGISTRO_YA_DESACTIVADO,
    SIN_PERMISO_REPORTES,
    ELECCION_NO_FINALIZADA,
    ELECCION_ENVIADA_INEXISTENTE,
    RESULTADOS_ELECCION_INEXISTENTE,
    RESULTADOS_NO_PUBLICADOS,
    SIN_VOTANTES,
    SIN_SISTEMA_ELECCIONES,
    ELECCION_NO_EXISTE,
    NO_SOS_ADMINISTRADOR,
}

impl ERRORES {
    /// The message that reports this failure.
    pub open spec fn texto(self) -> Seq<char> {
        match self {
            ERRORES::NO_ES_ADMINISTRADOR => "No eres el administrador."@,
            ERRORES::USUARIO_NO_REGISTRADO => "No estás registrado en el sistema. Espera a que te acepten en el mismo o realiza la solicitud."@,
            ERRORES::CANDIDATO_INEXISTENTE => "No existe un candidato con este id."@,
            ERRORES::NO_REGISTRADO_EN_ELECCION => "No estás registrado en la elección."@,
            ERRORES::YA_VOTO => "No se realizó el voto porque ya votaste anteriormente."@,
            ERRORES::OVERFLOW_VOTO => "Se produjo un overflow al intentar sumar el voto."@,
            ERRORES::SIN_USUARIOS_PENDIENTES => "No hay usuarios pendientes."@,
            ERRORES::OVERFLOW_ID_CANDIDATO => "Ocurrio un overflow al calcular la ID del candidato."@,
            ERRORES::ELECCION_INEXISTENTE => "No existe una elección con ese id."@,
            ERRORES::YA_PENDIENTE_EN_ELECCION => "Ya está registrado en la elección."@,
            ERRORES::VOTACION_YA_COMENZO => "La votación en la elección ya comenzó, no te puedes registrar."@,
            ERRORES::ELECCION_FINALIZADA => "La elección ya finalizó, no te puedes registrar."@,
            ERRORES::YA_RECHAZADO_EN_ELECCION => "Ya has sido rechazado no puedes ingresar a la eleccion"@,
            ERRORES::REGISTRO_NO_ACTIVADO => "El registro todavía no está activado."@,
            ERRORES::ES_ADMINISTRADOR => "Eres el administrador, no puedes registrarte."@,
            ERRORES::SOLICITUD_RECHAZADA => "Tu solicitud de registro ya fue rechazada."@,
            ERRORES::YA_REGISTRADO => "Ya estás registrado como usuario."@,
            ERRORES::YA_PENDIENTE => "Ya estás en la cola de usuarios pendientes."@,
            ERRORES::FECHA_INICIAL_INVALIDA => "Error en el formato de la fecha inicial. Formato: dd-mm-YYYY hh:mm"@,
            ERRORES::FECHA_FINAL_INVALIDA => "Error en el formato de la fecha final. Formato: dd-mm-YYYY hh:mm"@,
            ERRORES::OVERFLOW_ELECCION => "Se produjo un overflow al intentar crear una elección."@,
            ERRORES::VOTACION_FINALIZADA => "La votación ya finalizó."@,
            ERRORES::VOTACION_YA_INICIADA => "La votación ya inició."@,
            ERRORES::TODAVIA_NO_ES_FECHA => "Todavía no es la fecha para la votación."@,
            ERRORES::ELECCION_NO_ENCONTRADA => "Eleccion no encontrada"@,
            ERRORES::ELECCION_NO_ENCONTRADA_CONSULTA => "Eleccion no encontrada."@,
            ERRORES::CANDIDATO_NO_ENCONTRADO => "Candidato no encontrado."@,
            ERRORES::PERFIL_CANDIDATO_FALTANTE => "No se pudo encontrar la información del candidato."@,
            ERRORES::REGISTRO_YA_ACTIVADO => "El registro ya está activado."@,
            ERRORES::REGISTRO_YA_DESACTIVADO => "El registro ya está desactivado."@,
            ERRORES::SIN_PERMISO_REPORTES => "No es el generador de reportes o no es el administrador!"@,
            ERRORES::ELECCION_NO_FINALIZADA => "La elección no finalizó, no puedes obtener los datos."@,
            ERRORES::ELECCION_ENVIADA_INEXISTENTE => "La eleccion enviada no existe!"@,
            ERRORES::RESULTADOS_ELECCION_INEXISTENTE => "No se encontró una elección con ese id."@,
            ERRORES::RESULTADOS_NO_PUBLICADOS => "Todavía no están los resultados de la elección publicados."@,
            ERRORES::SIN_VOTANTES => "La elección no tiene votantes registrados."@,
            ERRORES::SIN_SISTEMA_ELECCIONES => "Sistema elecciones no seteado"@,
            ERRORES::ELECCION_NO_EXISTE => "Eleccion no existe"@,
            ERRORES::NO_SOS_ADMINISTRADOR => "No sos el administrador"@,
        }
    }

    pub fn to_string(&self) -> (r: String)
        ensures
            r@ == self.texto(),
    {
        match self {
            ERRORES::NO_ES_ADMINISTRADOR => String::from_str("No eres el administrador."),
            ERRORES::USUARIO_NO_REGISTRADO => String::from_str("No estás registrado en el sistema. Espera a que te acepten en el mismo o realiza la solicitud."),
            ERRORES::CANDIDATO_INEXISTENTE => String::from_str("No existe un candidato con este id."),
            ERRORES::NO_REGISTRADO_EN_ELECCION => String::from_str("No estás registrado en la elección."),
            ERRORES::YA_VOTO => String::from_str("No se realizó el voto porque ya votaste anteriormente."),
            ERRORES::OVERFLOW_VOTO => String::from_str("Se produjo un overflow al intentar sumar el voto."),
            ERRORES::SIN_USUARIOS_PENDIENTES => String::from_str("No hay usuarios pendientes."),
            ERRORES::OVERFLOW_ID_CANDIDATO => String::from_str("Ocurrio un overflow al calcular la ID del candidato."),
            ERRORES::ELECCION_INEXISTENTE => String::from_str("No existe una elección con ese id."),
            ERRORES::YA_PENDIENTE_EN_ELECCION => String::from_str("Ya está registrado en la elección."),
            ERRORES::VOTACION_YA_COMENZO => String::from_str("La votación en la elección ya comenzó, no te puedes registrar."),
            ERRORES::ELECCION_FINALIZADA => String::from_str("La elección ya finalizó, no te puedes registrar."),
            ERRORES::YA_RECHAZADO_EN_ELECCION => String::from_str("Ya has sido rechazado no puedes ingresar a la eleccion"),
            ERRORES::REGISTRO_NO_ACTIVADO => String::from_str("El registro todavía no está activado."),
            ERRORES::ES_ADMINISTRADOR => String::from_str("Eres el administrador, no puedes registrarte."),
            ERRORES::SOLICITUD_RECHAZADA => String::from_str("Tu solicitud de registro ya fue rechazada."),
            ERRORES::YA_REGISTRADO => String::from_str("Ya estás registrado como usuario."),
            ERRORES::YA_PENDIENTE => String::from_str("Ya estás en la cola de usuarios pendientes."),
            ERRORES::FECHA_INICIAL_INVALIDA => String::from_str("Error en el formato de la fecha inicial. Formato: dd-mm-YYYY hh:mm"),
            ERRORES::FECHA_FINAL_INVALIDA => String::from_str("Error en el formato de la fecha final. Formato: dd-mm-YYYY hh:mm"),
            ERRORES::OVERFLOW_ELECCION => String::from_str("Se produjo un overflow al intentar crear una elección."),
            ERRORES::VOTACION_FINALIZADA => String::from_str("La votación ya finalizó."),
            ERRORES::VOTACION_YA_INICIADA => String::from_str("La votación ya inició."),
            ERRORES::TODAVIA_NO_ES_FECHA => String::from_str("Todavía no es la fecha para la votación."),
            ERRORES::ELECCION_NO_ENCONTRADA => String::from_str("Eleccion no encontrada"),
            ERRORES::ELECCION_NO_ENCONTRADA_CONSULTA => String::from_str("Eleccion no encontrada."),
            ERRORES::CANDIDATO_NO_ENCONTRADO => String::from_str("Candidato no encontrado."),
            ERRORES::PERFIL_CANDIDATO_FALTANTE => String::from_str("No se pudo encontrar la información del candidato."),
            ERRORES::REGISTRO_YA_ACTIVADO => String::from_str("El registro ya está activado."),
            ERRORES::REGISTRO_YA_DESACTIVADO => String::from_str("El registro ya está desactivado."),
            ERRORES::SIN_PERMISO_REPORTES => String::from_str("No es el generador de reportes o no es el administrador!"),
            ERRORES::ELECCION_NO_FINALIZADA => String::from_str("La elección no finalizó, no puedes obtener los datos."),
            ERRORES::ELECCION_ENVIADA_INEXISTENTE => String::from_str("La eleccion enviada no existe!"),
            ERRORES::RESULTADOS_ELECCION_INEXISTENTE => String::from_str("No se encontró una elección con ese id."),
            ERRORES::RESULTADOS_NO_PUBLICADOS => String::from_str("Todavía no están los resultados de la elección publicados."),
            ERRORES::SIN_VOTANTES => String::from_str("La elección no tiene votantes registrados."),
            ERRORES::SIN_SISTEMA_ELECCIONES => String::from_str("Sistema elecciones no seteado"),
            ERRORES::ELECCION_NO_EXISTE => String::from_str("Eleccion no existe"),
            ERRORES::NO_SOS_ADMINISTRADOR => String::from_str("No sos el administrador"),
        }
    }

    /// The failure as the `Err` of an operation's outcome.
    pub fn como_error<T>(&self) -> (r: Result<T, String>)
        ensures
            falla_con(r, *self),
    {
        Err(self.to_string())
    }
}

/// `r` is the failure `e`.
pub open spec fn falla_con<T>(r: Result<T, String>, e: ERRORES) -> bool {
    r matches Err(m) && m@ == e.texto()
}

/// `r` is a success carrying the message `texto`.
pub open spec fn exito_con(r: Result<String, String>, texto: Seq<char>) -> bool {
    r matches Ok(m) && m@ == texto
}

/// Lower-case hexadecimal digit of `d` (also the decimal digit when `d < 10`).
pub open spec fn digito(d: int) -> char {
    if d == 0 { '0' } else if d == 1 { '1' } else if d == 2 { '2' } else if d == 3 { '3' }
    else if d == 4 { '4' } else if d == 5 { '5' } else if d == 6 { '6' } else if d == 7 { '7' }
    else if d == 8 { '8' } else if d == 9 { '9' } else if d == 10 { 'a' } else if d == 11 { 'b' }
    else if d == 12 { 'c' } else if d == 13 { 'd' } else if d == 14 { 'e' } else { 'f' }
}

/// Decimal notation of `n`, most significant digit first, without leading zeros.
pub open spec fn decimal(n: nat) -> Seq<char>
    decreases n,
{
    if n < 10 {
        seq![digito(n as int)]
    } else {
        decimal(n / 10).push(digito((n % 10) as int))
    }
}

/// Two lower-case hexadecimal digits per byte, high nibble first.
pub open spec fn hexadecimal(bytes: Seq<u8>) -> Seq<char>
    decreases bytes.len(),
{
    if bytes.len() == 0 {
        Seq::empty()
    } else {
        let b = bytes.last() as int;
        hexadecimal(bytes.drop_last()).push(digito(b / 16)).push(digito(b % 16))
    }
}

fn digito_decimal(d: u64) -> (r: &'static str)
    requires
        d < 10,
    ensures
        r@ == seq![digito(d as int)],
{
    proof {
        reveal_strlit("0");
        reveal_strlit("1");
        reveal_strlit("2");
        reveal_strlit("3");
        reveal_strlit("4");
        reveal_strlit("5");
        reveal_strlit("6");
        reveal_strlit("7");
        reveal_strlit("8");
        reveal_strlit("9");
    }
    let r = if d == 0 { "0" } else if d == 1 { "1" } else if d == 2 { "2" } else if d == 3 { "3" }
    else if d == 4 { "4" } else if d == 5 { "5" } else if d == 6 { "6" } else if d == 7 { "7" }
    else if d == 8 { "8" } else { "9" };
    assert(r@ =~= seq![digito(d as int)]);
    r
}

/// Appends the decimal notation of `n` to `s`.
pub fn escribir_decimal(n: u64, s: &mut String)
    ensures
        final(s)@ == old(s)@ + decimal(n as nat),
    decreases n,
{
    if n >= 10 {
        escribir_decimal(n / 10, s);
    }
    s.append(digito_decimal(n % 10));
    assert(s@ =~= old(s)@ + decimal(n as nat));
}

} // verus!
