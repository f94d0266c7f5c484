use vstd::prelude::*;
use vstd::string::StringExecFns;

use crate::cuenta::AccountId;
use crate::eleccion::{
    es_primer_votante, es_votante, CandidatoConteo, Eleccion, Resultados, Votante, TIPO_DE_USUARIO,
};
use crate::leyes::lema_primer_votante;
use crate::externos::{fecha_en_milisegundos, hex_de, milisegundos_de_fecha};
use crate::mensajes::{decimal, escribir_decimal, exito_con, falla_con, hexadecimal, ERRORES};


verus! {

/// The layout in which election dates are written: `dd-mm-YYYY HH:MM`.
pub const FORMATO_FECHA: &'static str = "%d-%m-%Y %H:%M";

/// A person's profile, created by a registration request.
#[derive(Clone, Debug)]
pub struct Usuario {
    pub id: AccountId,
    pub nombre: String,
    pub apellido: String,
    pub dni: String,
}

/// The whole system: roles, the global admission queue and every election.
/// The caller of each operation and the current time are handed in by the host.
#[derive(Debug)]
pub struct SistemaElecciones {
    pub administrador: AccountId,
    pub generador_reportes: Option<AccountId>,
    pub registro_activado: bool,
    pub usuarios: Vec<Usuario>,
    pub usuarios_pendientes: Vec<Usuario>,
    pub usuarios_rechazados: Vec<AccountId>,
    pub elecciones: Vec<Eleccion>,
}

/// Some profile of `u` belongs to `id`.
pub open spec fn tiene_perfil(u: Seq<Usuario>, id: AccountId) -> bool {
    exists|i: int| 0 <= i < u.len() && #[trigger] u[i].id == id
}

/// `i` is the first position of `u` that holds a profile of `id`.
pub open spec fn es_primer_perfil(u: Seq<Usuario>, id: AccountId, i: int) -> bool {
    &&& 0 <= i < u.len()
    &&& u[i].id == id
    &&& forall|j: int| 0 <= j < i ==> #[trigger] u[j].id != id
}

/// The text that presents a profile.
pub open spec fn ficha(u: Usuario) -> Seq<char> {
    "Nombre: "@ + u.nombre@ + "\nApellido: "@ + u.apellido@ + "\nDNI: "@ + u.dni@
}

/// The text that presents a request to join an election.
pub open spec fn ficha_solicitud(id: AccountId, tipo: TIPO_DE_USUARIO) -> Seq<char> {
    "Usuario: "@ + hexadecimal(id.0@) + match tipo {
        TIPO_DE_USUARIO::VOTANTE => "\nEl usuario quiere ser un VOTANTE"@,
        TIPO_DE_USUARIO::CANDIDATO => "\nEl usuario quiere ser un CANDIDATO"@,
    }
}

/// `e` is a freshly created election with the given id and window.
pub open spec fn eleccion_nueva(e: Eleccion, id: u64, inicio: u64, fin: u64) -> bool {
    &&& e.id == id
    &&& e.candidatos@.len() == 0
    &&& e.votantes@.len() == 0
    &&& e.usuarios_rechazados@.len() == 0
    &&& e.usuarios_pendientes@.len() == 0
    &&& !e.votacion_iniciada
    &&& e.fecha_inicio == inicio
    &&& e.fecha_final == fin
    &&& e.resultados is None
}

impl SistemaElecciones {
    pub open spec fn es_admin(self, quien: AccountId) -> bool {
        quien == self.administrador
    }

    pub open spec fn es_generador(self, quien: AccountId) -> bool {
        self.generador_reportes == Some(quien)
    }

    /// `quien` may read reports: the report generator or the administrator.
    pub open spec fn puede_ver_reportes(self, quien: AccountId) -> bool {
        self.es_generador(quien) || self.es_admin(quien)
    }

    pub open spec fn registrado(self, id: AccountId) -> bool {
        tiene_perfil(self.usuarios@, id)
    }

    pub open spec fn pendiente(self, id: AccountId) -> bool {
        tiene_perfil(self.usuarios_pendientes@, id)
    }

    pub open spec fn rechazado(self, id: AccountId) -> bool {
        self.usuarios_rechazados@.contains(id)
    }

    /// Each user stands in at most one of the pending queue, the registered users and
    /// the rejected users, and at most once there.
    pub open spec fn roles_disjuntos(self) -> bool {
        let pendientes = self.usuarios_pendientes@;
        let usuarios = self.usuarios@;
        let rechazados = self.usuarios_rechazados@;
        &&& forall|i: int, j: int|
            0 <= i < j < pendientes.len() ==> #[trigger] pendientes[i].id != #[trigger] pendientes[j].id
        &&& forall|i: int, j: int|
            0 <= i < j < usuarios.len() ==> #[trigger] usuarios[i].id != #[trigger] usuarios[j].id
        &&& forall|i: int, j: int|
            0 <= i < j < rechazados.len() ==> #[trigger] rechazados[i] != #[trigger] rechazados[j]
        &&& forall|i: int|
            0 <= i < pendientes.len() ==> !self.registrado(#[trigger] pendientes[i].id)
                && !self.rechazado(pendientes[i].id)
        &&& forall|i: int| 0 <= i < usuarios.len() ==> !self.rechazado(#[trigger] usuarios[i].id)
    }

    /// Every election of `antes` is still there in `despues`, with the same stored
    /// results and the same closing time.
    pub open spec fn conserva_resultados(antes: SistemaElecciones, despues: SistemaElecciones) -> bool {
        forall|id: u64|
            #[trigger] antes.existe(id) ==> {
                &&& despues.existe(id)
                &&& despues.eleccion(id).resultados == antes.eleccion(id).resultados
                &&& despues.eleccion(id).fecha_final == antes.eleccion(id).fecha_final
            }
    }

    /// Election ids run from 1 to the number of elections.
    pub open spec fn existe(self, eleccion_id: u64) -> bool {
        1 <= eleccion_id && eleccion_id <= self.elecciones@.len()
    }

    pub open spec fn eleccion(self, eleccion_id: u64) -> Eleccion {
        self.elecciones@[eleccion_id - 1]
    }

    /// `despues` is `antes` with the election at position `k` replaced by `e`.
    pub open spec fn solo_cambia_eleccion(
        antes: SistemaElecciones,
        despues: SistemaElecciones,
        k: int,
        e: Eleccion,
    ) -> bool {
        &&& despues.elecciones@ == antes.elecciones@.update(k, e)
        &&& despues.administrador == antes.administrador
        &&& despues.generador_reportes == antes.generador_reportes
        &&& despues.registro_activado == antes.registro_activado
        &&& despues.usuarios == antes.usuarios
        &&& despues.usuarios_pendientes == antes.usuarios_pendientes
        &&& despues.usuarios_rechazados == antes.usuarios_rechazados
    }

    /// Outcome of a registration request by `llamador`.
    pub open spec fn paso_registrarse(
        antes: SistemaElecciones,
        despues: SistemaElecciones,
        llamador: AccountId,
        nombre: String,
        apellido: String,
        dni: String,
        r: Result<String, String>,
    ) -> bool {
        if !antes.registro_activado {
            falla_con(r, ERRORES::REGISTRO_NO_ACTIVADO) && despues == antes
        } else if antes.es_admin(llamador) {
            falla_con(r, ERRORES::ES_ADMINISTRADOR) && despues == antes
        } else if antes.rechazado(llamador) {
            falla_con(r, ERRORES::SOLICITUD_RECHAZADA) && despues == antes
        } else if antes.registrado(llamador) {
            falla_con(r, ERRORES::YA_REGISTRADO) && despues == antes
        } else if antes.pendiente(llamador) {
            falla_con(r, ERRORES::YA_PENDIENTE) && despues == antes
        } else {
            &&& exito_con(r, "Registro exitoso. Se te añadió en la cola de usuarios pendientes."@)
            &&& despues == SistemaElecciones {
                usuarios_pendientes: despues.usuarios_pendientes,
                ..antes
            }
            &&& despues.usuarios_pendientes@ == antes.usuarios_pendientes@.push(
                Usuario { id: llamador, nombre, apellido, dni },
            )
        }
    }

    /// Outcome of deciding the head of the global admission queue.
    pub open spec fn paso_procesar_usuario(
        antes: SistemaElecciones,
        despues: SistemaElecciones,
        llamador: AccountId,
        aceptar: bool,
        r: Result<String, String>,
    ) -> bool {
        let cola = antes.usuarios_pendientes@;
        if !antes.es_admin(llamador) {
            falla_con(r, ERRORES::NO_ES_ADMINISTRADOR) && despues == antes
        } else if cola.len() == 0 {
            falla_con(r, ERRORES::SIN_USUARIOS_PENDIENTES) && despues == antes
        } else if aceptar {
            &&& exito_con(r, "Usuario agregado exitosamente."@)
            &&& despues == SistemaElecciones {
                usuarios_pendientes: despues.usuarios_pendientes,
                usuarios: despues.usuarios,
                ..antes
            }
            &&& despues.usuarios_pendientes@ == cola.drop_first()
            &&& despues.usuarios@ == antes.usuarios@.push(cola[0])
        } else {
            &&& exito_con(r, "Usuario rechazado exitosamente."@)
            &&& despues == SistemaElecciones {
                usuarios_pendientes: despues.usuarios_pendientes,
                usuarios_rechazados: despues.usuarios_rechazados,
                ..antes
            }
            &&& despues.usuarios_pendientes@ == cola.drop_first()
            &&& despues.usuarios_rechazados@ == antes.usuarios_rechazados@.push(cola[0].id)
        }
    }

    /// Outcome of creating an election whose dates read as `inicio` and `fin`
    /// (`None`: the date did not parse).
    pub open spec fn paso_crear_eleccion(
        antes: SistemaElecciones,
        despues: SistemaElecciones,
        llamador: AccountId,
        inicio: Option<i64>,
        fin: Option<i64>,
        r: Result<String, String>,
    ) -> bool {
        let n = antes.elecciones@.len();
        if !antes.es_admin(llamador) {
            falla_con(r, ERRORES::NO_ES_ADMINISTRADOR) && despues == antes
        } else if inicio is None {
            falla_con(r, ERRORES::FECHA_INICIAL_INVALIDA) && despues == antes
        } else if fin is None {
            falla_con(r, ERRORES::FECHA_FINAL_INVALIDA) && despues == antes
        } else if n >= u64::MAX {
            falla_con(r, ERRORES::OVERFLOW_ELECCION) && despues == antes
        } else {
            &&& exito_con(
                r,
                "Eleccion creada exitosamente. Id de la elección: "@ + decimal((n + 1) as nat),
            )
            &&& despues == SistemaElecciones { elecciones: despues.elecciones, ..antes }
            &&& despues.elecciones@.len() == n + 1
            &&& despues.elecciones@.subrange(0, n as int) == antes.elecciones@
            &&& eleccion_nueva(
                despues.elecciones@[n as int],
                (n + 1) as u64,
                inicio->Some_0 as u64,
                fin->Some_0 as u64,
            )
        }
    }

    /// Outcome of the administrator opening the vote of an election at `ahora`.
    pub open spec fn paso_iniciar_votacion(
        antes: SistemaElecciones,
        despues: SistemaElecciones,
        llamador: AccountId,
        ahora: u64,
        eleccion_id: u64,
        r: Result<String, String>,
    ) -> bool {
        let e = antes.eleccion(eleccion_id);
        if !antes.es_admin(llamador) {
            falla_con(r, ERRORES::NO_ES_ADMINISTRADOR) && despues == antes
        } else if !antes.existe(eleccion_id) {
            falla_con(r, ERRORES::ELECCION_INEXISTENTE) && despues == antes
        } else if ahora > e.fecha_final {
            falla_con(r, ERRORES::VOTACION_FINALIZADA) && despues == antes
        } else if e.votacion_iniciada {
            falla_con(r, ERRORES::VOTACION_YA_INICIADA) && despues == antes
        } else if ahora < e.fecha_inicio {
            falla_con(r, ERRORES::TODAVIA_NO_ES_FECHA) && despues == antes
        } else {
            &&& exito_con(r, "Se inició la votación exitosamente."@)
            &&& SistemaElecciones::solo_cambia_eleccion(
                antes,
                despues,
                eleccion_id - 1,
                Eleccion { votacion_iniciada: true, ..e },
            )
        }
    }

    /// The checks that admit `id_usuario` to ask to join election `eleccion_id` at
    /// `ahora`, in the order in which they fail; `None` when all pass.
    pub open spec fn falla_admision(
        self,
        eleccion_id: u64,
        ahora: u64,
        id_usuario: AccountId,
    ) -> Option<ERRORES> {
        let e = self.eleccion(eleccion_id);
        if !self.existe(eleccion_id) {
            Some(ERRORES::ELECCION_INEXISTENTE)
        } else if e.tiene_pendiente(id_usuario) {
            Some(ERRORES::YA_PENDIENTE_EN_ELECCION)
        } else if e.votacion_iniciada {
            Some(ERRORES::VOTACION_YA_COMENZO)
        } else if e.fecha_final < ahora {
            Some(ERRORES::ELECCION_FINALIZADA)
        } else if ahora >= e.fecha_inicio {
            Some(ERRORES::VOTACION_YA_COMENZO)
        } else {
            None
        }
    }

    /// Outcome of `llamador` asking at `ahora` to join election `eleccion_id` as `tipo`.
    pub open spec fn paso_ingresar(
        antes: SistemaElecciones,
        despues: SistemaElecciones,
        llamador: AccountId,
        ahora: u64,
        eleccion_id: u64,
        tipo: TIPO_DE_USUARIO,
        r: Result<String, String>,
    ) -> bool {
        let e = antes.eleccion(eleccion_id);
        if !antes.registrado(llamador) {
            falla_con(r, ERRORES::USUARIO_NO_REGISTRADO) && despues == antes
        } else if let Some(f) = antes.falla_admision(eleccion_id, ahora, llamador) {
            falla_con(r, f) && despues == antes
        } else if e.usuarios_rechazados@.contains(llamador) {
            falla_con(r, ERRORES::YA_RECHAZADO_EN_ELECCION) && despues == antes
        } else {
            let d = despues.eleccion(eleccion_id);
            &&& exito_con(
                r,
                "Ingresó a la elección correctamente Pendiente de aprobacion del Administrador"@,
            )
            &&& SistemaElecciones::solo_cambia_eleccion(antes, despues, eleccion_id - 1, d)
            &&& d == Eleccion { usuarios_pendientes: d.usuarios_pendientes, ..e }
            &&& d.usuarios_pendientes@ == e.usuarios_pendientes@.push((llamador, tipo))
        }
    }

    /// Outcome of `llamador` voting at `ahora` for candidate `n` of election `eleccion_id`.
    /// A vote counted at or after the start opens the vote; a vote that fails leaves
    /// every election as it was.
    pub open spec fn paso_votar(
        antes: SistemaElecciones,
        despues: SistemaElecciones,
        llamador: AccountId,
        ahora: u64,
        eleccion_id: u64,
        n: u32,
        r: Result<String, String>,
    ) -> bool {
        let e = antes.eleccion(eleccion_id);
        let d = despues.eleccion(eleccion_id);
        if !antes.registrado(llamador) {
            falla_con(r, ERRORES::USUARIO_NO_REGISTRADO) && despues == antes
        } else if !antes.existe(eleccion_id) {
            falla_con(r, ERRORES::ELECCION_INEXISTENTE) && despues == antes
        } else if !e.votacion_iniciada && ahora < e.fecha_inicio {
            falla_con(r, ERRORES::TODAVIA_NO_ES_FECHA) && despues == antes
        } else if ahora > e.fecha_final {
            falla_con(r, ERRORES::VOTACION_FINALIZADA) && despues == antes
        } else {
            &&& Eleccion::paso_votar(
                e,
                Eleccion { votacion_iniciada: e.votacion_iniciada, ..d },
                llamador,
                n,
                r,
            )
            &&& d.votacion_iniciada == (e.votacion_iniciada || r is Ok)
            &&& SistemaElecciones::solo_cambia_eleccion(antes, despues, eleccion_id - 1, d)
        }
    }

    /// Outcome of the administrator deciding the head of election `eleccion_id`'s queue.
    pub open spec fn paso_procesar_en_eleccion(
        antes: SistemaElecciones,
        despues: SistemaElecciones,
        llamador: AccountId,
        eleccion_id: u64,
        aceptar: bool,
        r: Result<String, String>,
    ) -> bool {
        let d = despues.eleccion(eleccion_id);
        if !antes.es_admin(llamador) {
            falla_con(r, ERRORES::NO_ES_ADMINISTRADOR) && despues == antes
        } else if !antes.existe(eleccion_id) {
            falla_con(r, ERRORES::ELECCION_NO_ENCONTRADA) && despues == antes
        } else {
            &&& Eleccion::paso_procesar_pendiente(antes.eleccion(eleccion_id), d, aceptar, r)
            &&& SistemaElecciones::solo_cambia_eleccion(antes, despues, eleccion_id - 1, d)
        }
    }

    /// Outcome of asking at `ahora` for the results of election `eleccion_id`.
    pub open spec fn paso_obtener_resultados(
        antes: SistemaElecciones,
        despues: SistemaElecciones,
        ahora: u64,
        eleccion_id: u64,
        r: Result<Resultados, String>,
    ) -> bool {
        let d = despues.eleccion(eleccion_id);
        if !antes.existe(eleccion_id) {
            falla_con(r, ERRORES::RESULTADOS_ELECCION_INEXISTENTE) && despues == antes
        } else {
            &&& Eleccion::paso_resultados(
                antes.eleccion(eleccion_id),
                d,
                ahora,
                match r {
                    Ok(x) => Some(x),
                    Err(_) => None,
                },
            )
            &&& r is Err ==> falla_con(r, ERRORES::RESULTADOS_NO_PUBLICADOS)
            &&& SistemaElecciones::solo_cambia_eleccion(antes, despues, eleccion_id - 1, d)
        }
    }

    /// Outcome of the administrator switching registration to `activar`.
    pub open spec fn paso_cambiar_registro(
        antes: SistemaElecciones,
        despues: SistemaElecciones,
        llamador: AccountId,
        activar: bool,
        r: Result<String, String>,
    ) -> bool {
        if !antes.es_admin(llamador) {
            falla_con(r, ERRORES::NO_ES_ADMINISTRADOR) && despues == antes
        } else if antes.registro_activado == activar {
            &&& falla_con(
                r,
                if activar {
                    ERRORES::REGISTRO_YA_ACTIVADO
                } else {
                    ERRORES::REGISTRO_YA_DESACTIVADO
                },
            )
            &&& despues == antes
        } else {
            &&& exito_con(
                r,
                if activar {
                    "Se activó el registro para los usuarios."@
                } else {
                    "Se desactivó el registro para los usuarios."@
                },
            )
            &&& despues == SistemaElecciones { registro_activado: activar, ..antes }
        }
    }

    /// What the reports see of the enrolled voters of an election: who, and whether they voted.
    pub open spec fn datos_votantes(e: Eleccion) -> Seq<(AccountId, bool)> {
        e.votantes@.map_values(|v: Votante| (v.id, v.voto_emitido))
    }

    /// What the reports see of the candidates of an election: who, and the tally.
    pub open spec fn datos_candidatos(e: Eleccion) -> Seq<(AccountId, u32)> {
        e.candidatos@.map_values(|c: CandidatoConteo| (c.id, c.votos_totales))
    }

    /// The check shared by the two report queries, in the order in which they fail;
    /// `None` when `llamador` may read election `eleccion_id` at `ahora`.
    pub open spec fn falla_consulta(self, llamador: AccountId, ahora: u64, eleccion_id: u64) -> Option<
        ERRORES,
    > {
        if !self.puede_ver_reportes(llamador) {
            Some(ERRORES::SIN_PERMISO_REPORTES)
        } else if !self.existe(eleccion_id) {
            Some(ERRORES::ELECCION_ENVIADA_INEXISTENTE)
        } else if self.eleccion(eleccion_id).fecha_final > ahora {
            Some(ERRORES::ELECCION_NO_FINALIZADA)
        } else {
            None
        }
    }

}

/// The first position of `u` that holds a profile of `id`.
fn posicion_perfil(u: &Vec<Usuario>, id: AccountId) -> (r: Option<usize>)
    ensures
        r matches Some(i) ==> es_primer_perfil(u@, id, i as int),
        r is None ==> !tiene_perfil(u@, id),
{
    let mut i: usize = 0;
    while i < u.len()
        invariant
            i <= u@.len(),
            forall|k: int| 0 <= k < i ==> #[trigger] u@[k].id != id,
        decreases u@.len() - i,
    {
        if u[i].id == id {
            return Some(i);
        }
        i = i + 1;
    }
    None
}

/// Whether `id` occurs in `ids`.
pub(crate) fn contiene_id(ids: &Vec<AccountId>, id: AccountId) -> (r: bool)
    ensures
        r == ids@.contains(id),
{
    let mut i: usize = 0;
    while i < ids.len()
        invariant
            i <= ids@.len(),
            forall|k: int| 0 <= k < i ==> #[trigger] ids@[k] != id,
        decreases ids@.len() - i,
    {
        if ids[i] == id {
            assert(ids@[i as int] == id);
            return true;
        }
        i = i + 1;
    }
    false
}

/// The text that presents the profile `u`.
fn ficha_de(u: &Usuario) -> (r: String)
    ensures
        r@ == ficha(*u),
{
    let r = String::from_str("Nombre: ").concat(u.nombre.as_str()).concat("\nApellido: ").concat(
        u.apellido.as_str(),
    ).concat("\nDNI: ").concat(u.dni.as_str());
    r
}

impl SistemaElecciones {
    /// A system administered by `llamador`, with registration closed and nothing stored.
    pub fn new(llamador: AccountId) -> (r: Self)
        ensures
            r.administrador == llamador,
            r.generador_reportes is None,
            !r.registro_activado,
            r.usuarios@.len() == 0,
            r.usuarios_pendientes@.len() == 0,
            r.usuarios_rechazados@.len() == 0,
            r.elecciones@.len() == 0,
            r.roles_disjuntos(),
    {
        SistemaElecciones {
            administrador: llamador,
            generador_reportes: None,
            registro_activado: false,
            usuarios: Vec::new(),
            usuarios_pendientes: Vec::new(),
            usuarios_rechazados: Vec::new(),
            elecciones: Vec::new(),
        }
    }

    pub fn es_generador_reportes(&self, llamador: AccountId) -> (r: bool)
        ensures
            r == self.es_generador(llamador),
    {
        match self.generador_reportes {
            None => false,
            Some(generador) => llamador == generador,
        }
    }

    pub fn es_administrador(&self, llamador: AccountId) -> (r: bool)
        ensures
            r == self.es_admin(llamador),
    {
        llamador == self.administrador
    }

    /// The profile of a registered user.
    pub fn obtener_usuario(&self, id: AccountId) -> (r: Option<&Usuario>)
        ensures
            r is None <==> !self.registrado(id),
            r matches Some(u) ==> exists|i: int|
                es_primer_perfil(self.usuarios@, id, i) && *u == #[trigger] self.usuarios@[i],
    {
        match posicion_perfil(&self.usuarios, id) {
            None => None,
            Some(i) => Some(&self.usuarios[i]),
        }
    }

    pub fn es_usuario_registrado(&self, llamador: AccountId) -> (r: bool)
        ensures
            r == self.registrado(llamador),
    {
        posicion_perfil(&self.usuarios, llamador).is_some()
    }

    pub fn es_usuario_pendiente(&self, llamador: AccountId) -> (r: bool)
        ensures
            r == self.pendiente(llamador),
    {
        posicion_perfil(&self.usuarios_pendientes, llamador).is_some()
    }

    pub fn existe_eleccion(&self, eleccion_id: u64) -> (r: bool)
        ensures
            r == self.existe(eleccion_id),
    {
        eleccion_id >= 1 && eleccion_id <= self.elecciones.len() as u64
    }

    /// The position of election `eleccion_id` in the list, if it exists.
    fn indice_eleccion(&self, eleccion_id: u64) -> (r: Option<usize>)
        ensures
            r is Some <==> self.existe(eleccion_id),
            r matches Some(k) ==> k == eleccion_id - 1 && k < self.elecciones@.len(),
    {
        let n = self.elecciones.len();
        if eleccion_id >= 1 && eleccion_id <= n as u64 {
            Some((eleccion_id - 1) as usize)
        } else {
            None
        }
    }

    /// Write access to the election with id `eleccion_id`, if it exists.
    pub fn obtener_eleccion_por_id(&mut self, eleccion_id: u64) -> (r: Option<&mut Eleccion>)
        ensures
            r is Some <==> old(self).existe(eleccion_id),
            r is None ==> *final(self) == *old(self),
            r matches Some(e) ==> {
                &&& *e == old(self).eleccion(eleccion_id)
                &&& SistemaElecciones::solo_cambia_eleccion(
                    *old(self),
                    *final(self),
                    eleccion_id - 1,
                    *final(e),
                )
            },
    {
        match self.indice_eleccion(eleccion_id) {
            Some(k) => Some(&mut self.elecciones[k]),
            None => None,
        }
    }

    /// The election with id `eleccion_id`, if it exists.
    pub fn obtener_ref_eleccion_por_id(&self, eleccion_id: u64) -> (r: Option<&Eleccion>)
        ensures
            r is Some <==> self.existe(eleccion_id),
            r matches Some(e) ==> *e == self.eleccion(eleccion_id),
    {
        match self.indice_eleccion(eleccion_id) {
            Some(k) => Some(&self.elecciones[k]),
            None => None,
        }
    }

    /// Write access to election `eleccion_id` when `id_usuario` may still ask to join it at
    /// `block_timestamp`; otherwise the first check that fails.
    pub fn validar_estado_eleccion(
        &mut self,
        eleccion_id: u64,
        block_timestamp: u64,
        id_usuario: AccountId,
    ) -> (r: Result<&mut Eleccion, String>)
        ensures
            match old(self).falla_admision(eleccion_id, block_timestamp, id_usuario) {
                Some(f) => falla_con(r, f) && *final(self) == *old(self),
                None => r matches Ok(e) && {
                    &&& *e == old(self).eleccion(eleccion_id)
                    &&& SistemaElecciones::solo_cambia_eleccion(
                        *old(self),
                        *final(self),
                        eleccion_id - 1,
                        *final(e),
                    )
                },
            },
    {
        match self.comprobar_admision(eleccion_id, block_timestamp, id_usuario) {
            Some(falla) => return falla.como_error(),
            None => {},
        }
        let k = match self.indice_eleccion(eleccion_id) {
            None => return ERRORES::ELECCION_INEXISTENTE.como_error(),
            Some(k) => k,
        };
        Ok(&mut self.elecciones[k])
    }

    /// Asks to register `llamador` with the given profile.
    pub fn registrarse(&mut self, llamador: AccountId, nombre: String, apellido: String, dni: String) -> (r: Result<String, String>)
        ensures
            SistemaElecciones::paso_registrarse(*old(self), *final(self), llamador, nombre, apellido, dni, r),
    {
        self.registrarse_privado(llamador, nombre, apellido, dni)
    }

    pub fn registrarse_privado(&mut self, llamador: AccountId, nombre: String, apellido: String, dni: String) -> (r: Result<String, String>)
        ensures
            SistemaElecciones::paso_registrarse(*old(self), *final(self), llamador, nombre, apellido, dni, r),
    {
        if !self.registro_activado {
            return ERRORES::REGISTRO_NO_ACTIVADO.como_error();
        }
        if self.es_administrador(llamador) {
            return ERRORES::ES_ADMINISTRADOR.como_error();
        }
        if contiene_id(&self.usuarios_rechazados, llamador) {
            return ERRORES::SOLICITUD_RECHAZADA.como_error();
        }
        if self.es_usuario_registrado(llamador) {
            return ERRORES::YA_REGISTRADO.como_error();
        }
        if self.es_usuario_pendiente(llamador) {
            return ERRORES::YA_PENDIENTE.como_error();
        }
        self.usuarios_pendientes.push(Usuario { id: llamador, nombre, apellido, dni });
        Ok(String::from_str("Registro exitoso. Se te añadió en la cola de usuarios pendientes."))
    }

    /// The profile at the head of the global admission queue, for the administrator.
    pub fn obtener_informacion_siguiente_usuario_pendiente(&self, llamador: AccountId) -> (r: Result<String, String>)
        ensures
            !self.es_admin(llamador) ==> falla_con(r, ERRORES::NO_ES_ADMINISTRADOR),
            self.es_admin(llamador) && self.usuarios_pendientes@.len() == 0 ==> falla_con(r, ERRORES::SIN_USUARIOS_PENDIENTES),
            self.es_admin(llamador) && self.usuarios_pendientes@.len() > 0 ==> exito_con(r, ficha(self.usuarios_pendientes@[0])),
    {
        self.obtener_informacion_siguiente_usuario_pendiente_privado(llamador)
    }

    pub fn obtener_informacion_siguiente_usuario_pendiente_privado(&self, llamador: AccountId) -> (r: Result<String, String>)
        ensures
            !self.es_admin(llamador) ==> falla_con(r, ERRORES::NO_ES_ADMINISTRADOR),
            self.es_admin(llamador) && self.usuarios_pendientes@.len() == 0 ==> falla_con(r, ERRORES::SIN_USUARIOS_PENDIENTES),
            self.es_admin(llamador) && self.usuarios_pendientes@.len() > 0 ==> exito_con(r, ficha(self.usuarios_pendientes@[0])),
    {
        if !self.es_administrador(llamador) {
            return ERRORES::NO_ES_ADMINISTRADOR.como_error();
        }
        if self.usuarios_pendientes.len() == 0 {
            return ERRORES::SIN_USUARIOS_PENDIENTES.como_error();
        }
        Ok(ficha_de(&self.usuarios_pendientes[0]))
    }

    /// Accepts or rejects the head of the global admission queue.
    pub fn procesar_siguiente_usuario_pendiente(&mut self, llamador: AccountId, aceptar_usuario: bool) -> (r: Result<String, String>)
        ensures
            SistemaElecciones::paso_procesar_usuario(*old(self), *final(self), llamador, aceptar_usuario, r),
    {
        self.procesar_siguiente_usuario_pendiente_privado(llamador, aceptar_usuario)
    }

    pub fn procesar_siguiente_usuario_pendiente_privado(&mut self, llamador: AccountId, aceptar_usuario: bool) -> (r: Result<String, String>)
        ensures
            SistemaElecciones::paso_procesar_usuario(*old(self), *final(self), llamador, aceptar_usuario, r),
    {
        if !self.es_administrador(llamador) {
            return ERRORES::NO_ES_ADMINISTRADOR.como_error();
        }
        if self.usuarios_pendientes.len() == 0 {
            return ERRORES::SIN_USUARIOS_PENDIENTES.como_error();
        }
        let usuario = self.usuarios_pendientes.remove(0);
        assert(self.usuarios_pendientes@ =~= old(self).usuarios_pendientes@.drop_first());
        if aceptar_usuario {
            self.usuarios.push(usuario);
            Ok(String::from_str("Usuario agregado exitosamente."))
        } else {
            self.usuarios_rechazados.push(usuario.id);
            Ok(String::from_str("Usuario rechazado exitosamente."))
        }
    }

    /// Creates an election from dates already read as milliseconds since the Unix
    /// epoch (`None`: the date did not parse); its id is one more than the number of
    /// elections.
    pub fn registrar_eleccion(&mut self, llamador: AccountId, inicio: Option<i64>, fin: Option<i64>) -> (r: Result<String, String>)
        ensures
            SistemaElecciones::paso_crear_eleccion(*old(self), *final(self), llamador, inicio, fin, r),
    {
        if !self.es_administrador(llamador) {
            return ERRORES::NO_ES_ADMINISTRADOR.como_error();
        }
        let inicio = match inicio {
            None => return ERRORES::FECHA_INICIAL_INVALIDA.como_error(),
            Some(t) => t,
        };
        let fin = match fin {
            None => return ERRORES::FECHA_FINAL_INVALIDA.como_error(),
            Some(t) => t,
        };
        let eleccion_id = match (self.elecciones.len() as u64).checked_add(1) {
            None => return ERRORES::OVERFLOW_ELECCION.como_error(),
            Some(id) => id,
        };
        self.elecciones.push(
            Eleccion {
                id: eleccion_id,
                candidatos: Vec::new(),
                votantes: Vec::new(),
                usuarios_rechazados: Vec::new(),
                usuarios_pendientes: Vec::new(),
                votacion_iniciada: false,
                fecha_inicio: inicio as u64,
                fecha_final: fin as u64,
                resultados: None,
            },
        );
        assert(self.elecciones@.subrange(0, old(self).elecciones@.len() as int) =~= old(self).elecciones@);
        let mut mensaje = String::from_str("Eleccion creada exitosamente. Id de la elección: ");
        escribir_decimal(eleccion_id, &mut mensaje);
        Ok(mensaje)
    }

    /// Creates an election open from `fecha_inicial` to `fecha_final`, both written as
    /// `dd-mm-YYYY HH:MM`.
    pub fn crear_eleccion(&mut self, llamador: AccountId, fecha_inicial: String, fecha_final: String) -> (r: Result<String, String>)
        ensures
            SistemaElecciones::paso_crear_eleccion(
                *old(self),
                *final(self),
                llamador,
                milisegundos_de_fecha(fecha_inicial@, FORMATO_FECHA@),
                milisegundos_de_fecha(fecha_final@, FORMATO_FECHA@),
                r,
            ),
    {
        self.crear_eleccion_privado(llamador, fecha_inicial, fecha_final)
    }

    pub fn crear_eleccion_privado(&mut self, llamador: AccountId, fecha_inicial: String, fecha_final: String) -> (r: Result<String, String>)
        ensures
            SistemaElecciones::paso_crear_eleccion(
                *old(self),
                *final(self),
                llamador,
                milisegundos_de_fecha(fecha_inicial@, FORMATO_FECHA@),
                milisegundos_de_fecha(fecha_final@, FORMATO_FECHA@),
                r,
            ),
    {
        let inicio = fecha_en_milisegundos(fecha_inicial.as_str(), FORMATO_FECHA);
        let fin = fecha_en_milisegundos(fecha_final.as_str(), FORMATO_FECHA);
        self.registrar_eleccion(llamador, inicio, fin)
    }

    /// Opens the vote of election `eleccion_id` at `block_timestamp`, inside its window.
    pub fn iniciar_votacion(&mut self, llamador: AccountId, block_timestamp: u64, eleccion_id: u64) -> (r: Result<String, String>)
        ensures
            SistemaElecciones::paso_iniciar_votacion(*old(self), *final(self), llamador, block_timestamp, eleccion_id, r),
    {
        self.iniciar_votacion_privado(llamador, block_timestamp, eleccion_id)
    }

    pub fn iniciar_votacion_privado(&mut self, llamador: AccountId, block_timestamp: u64, eleccion_id: u64) -> (r: Result<String, String>)
        ensures
            SistemaElecciones::paso_iniciar_votacion(*old(self), *final(self), llamador, block_timestamp, eleccion_id, r),
    {
        if !self.es_administrador(llamador) {
            return ERRORES::NO_ES_ADMINISTRADOR.como_error();
        }
        let k = match self.indice_eleccion(eleccion_id) {
            None => return ERRORES::ELECCION_INEXISTENTE.como_error(),
            Some(k) => k,
        };
        if block_timestamp > self.elecciones[k].fecha_final {
            return ERRORES::VOTACION_FINALIZADA.como_error();
        }
        if self.elecciones[k].votacion_iniciada {
            return ERRORES::VOTACION_YA_INICIADA.como_error();
        }
        if block_timestamp < self.elecciones[k].fecha_inicio {
            return ERRORES::TODAVIA_NO_ES_FECHA.como_error();
        }
        self.elecciones[k].votacion_iniciada = true;
        Ok(String::from_str("Se inició la votación exitosamente."))
    }
}

impl SistemaElecciones {
    /// The first check that keeps `id_usuario` from asking to join election
    /// `eleccion_id` at `ahora`.
    fn comprobar_admision(&self, eleccion_id: u64, ahora: u64, id_usuario: AccountId) -> (r: Option<ERRORES>)
        ensures
            r == self.falla_admision(eleccion_id, ahora, id_usuario),
    {
        let k = match self.indice_eleccion(eleccion_id) {
            None => return Some(ERRORES::ELECCION_INEXISTENTE),
            Some(k) => k,
        };
        let e = &self.elecciones[k];
        if e.contiene_usuario_pendiente(id_usuario) {
            Some(ERRORES::YA_PENDIENTE_EN_ELECCION)
        } else if e.votacion_iniciada {
            Some(ERRORES::VOTACION_YA_COMENZO)
        } else if e.fecha_final < ahora {
            Some(ERRORES::ELECCION_FINALIZADA)
        } else if ahora >= e.fecha_inicio {
            Some(ERRORES::VOTACION_YA_COMENZO)
        } else {
            None
        }
    }

    /// The request at the head of election `eleccion_id`'s queue, for the administrator.
    pub fn obtener_siguiente_usuario_pendiente_en_una_eleccion(&mut self, llamador: AccountId, eleccion_id: u64) -> (r: Result<String, String>)
        ensures
            *final(self) == *old(self),
            !old(self).es_admin(llamador) ==> falla_con(r, ERRORES::NO_ES_ADMINISTRADOR),
            old(self).es_admin(llamador) && !old(self).existe(eleccion_id) ==> falla_con(r, ERRORES::ELECCION_NO_ENCONTRADA),
            old(self).es_admin(llamador) && old(self).existe(eleccion_id) ==> {
                let cola = old(self).eleccion(eleccion_id).usuarios_pendientes@;
                &&& cola.len() == 0 ==> falla_con(r, ERRORES::SIN_USUARIOS_PENDIENTES)
                &&& cola.len() > 0 ==> exito_con(r, ficha_solicitud(cola[0].0, cola[0].1))
            },
    {
        self.obtener_siguiente_usuario_pendiente_en_una_eleccion_privado(llamador, eleccion_id)
    }

    pub fn obtener_siguiente_usuario_pendiente_en_una_eleccion_privado(&mut self, llamador: AccountId, eleccion_id: u64) -> (r: Result<String, String>)
        ensures
            *final(self) == *old(self),
            !old(self).es_admin(llamador) ==> falla_con(r, ERRORES::NO_ES_ADMINISTRADOR),
            old(self).es_admin(llamador) && !old(self).existe(eleccion_id) ==> falla_con(r, ERRORES::ELECCION_NO_ENCONTRADA),
            old(self).es_admin(llamador) && old(self).existe(eleccion_id) ==> {
                let cola = old(self).eleccion(eleccion_id).usuarios_pendientes@;
                &&& cola.len() == 0 ==> falla_con(r, ERRORES::SIN_USUARIOS_PENDIENTES)
                &&& cola.len() > 0 ==> exito_con(r, ficha_solicitud(cola[0].0, cola[0].1))
            },
    {
        if !self.es_administrador(llamador) {
            return ERRORES::NO_ES_ADMINISTRADOR.como_error();
        }
        let k = match self.indice_eleccion(eleccion_id) {
            None => return ERRORES::ELECCION_NO_ENCONTRADA.como_error(),
            Some(k) => k,
        };
        if self.elecciones[k].usuarios_pendientes.len() == 0 {
            return ERRORES::SIN_USUARIOS_PENDIENTES.como_error();
        }
        let (usuario, tipo) = self.elecciones[k].usuarios_pendientes[0];
        let datos = String::from_str("Usuario: ").concat(hex_de(&usuario.0).as_str());
        let datos = match tipo {
            TIPO_DE_USUARIO::VOTANTE => datos.concat("\nEl usuario quiere ser un VOTANTE"),
            TIPO_DE_USUARIO::CANDIDATO => datos.concat("\nEl usuario quiere ser un CANDIDATO"),
        };
        Ok(datos)
    }

    /// Accepts or rejects the request at the head of election `eleccion_id`'s queue.
    pub fn procesar_usuarios_en_una_eleccion(&mut self, llamador: AccountId, eleccion_id: u64, aceptar_usuario: bool) -> (r: Result<String, String>)
        ensures
            SistemaElecciones::paso_procesar_en_eleccion(*old(self), *final(self), llamador, eleccion_id, aceptar_usuario, r),
    {
        self.procesar_usuarios_en_una_eleccion_privado(llamador, eleccion_id, aceptar_usuario)
    }

    pub fn procesar_usuarios_en_una_eleccion_privado(&mut self, llamador: AccountId, eleccion_id: u64, aceptar_usuario: bool) -> (r: Result<String, String>)
        ensures
            SistemaElecciones::paso_procesar_en_eleccion(*old(self), *final(self), llamador, eleccion_id, aceptar_usuario, r),
    {
        if !self.es_administrador(llamador) {
            return ERRORES::NO_ES_ADMINISTRADOR.como_error();
        }
        let k = match self.indice_eleccion(eleccion_id) {
            None => return ERRORES::ELECCION_NO_ENCONTRADA.como_error(),
            Some(k) => k,
        };
        self.elecciones[k].procesar_siguiente_usuario_pendiente(aceptar_usuario)
    }

    /// `llamador`, a registered user, asks at `block_timestamp` to join election
    /// `eleccion_id` as `tipo`; the request waits for the administrator.
    pub fn ingresar_a_eleccion(&mut self, llamador: AccountId, block_timestamp: u64, eleccion_id: u64, tipo: TIPO_DE_USUARIO) -> (r: Result<String, String>)
        ensures
            SistemaElecciones::paso_ingresar(*old(self), *final(self), llamador, block_timestamp, eleccion_id, tipo, r),
    {
        self.ingresar_a_eleccion_privado(llamador, block_timestamp, eleccion_id, tipo)
    }

    pub fn ingresar_a_eleccion_privado(&mut self, llamador: AccountId, block_timestamp: u64, eleccion_id: u64, tipo: TIPO_DE_USUARIO) -> (r: Result<String, String>)
        ensures
            SistemaElecciones::paso_ingresar(*old(self), *final(self), llamador, block_timestamp, eleccion_id, tipo, r),
    {
        if !self.es_usuario_registrado(llamador) {
            return ERRORES::USUARIO_NO_REGISTRADO.como_error();
        }
        match self.comprobar_admision(eleccion_id, block_timestamp, llamador) {
            Some(falla) => return falla.como_error(),
            None => {},
        }
        let k = match self.indice_eleccion(eleccion_id) {
            None => return ERRORES::ELECCION_INEXISTENTE.como_error(),
            Some(k) => k,
        };
        if contiene_id(&self.elecciones[k].usuarios_rechazados, llamador) {
            return ERRORES::YA_RECHAZADO_EN_ELECCION.como_error();
        }
        self.elecciones[k].usuarios_pendientes.push((llamador, tipo));
        assert(self.elecciones@ =~= old(self).elecciones@.update(k as int, self.elecciones@[k as int]));
        Ok(String::from_str("Ingresó a la elección correctamente Pendiente de aprobacion del Administrador"))
    }

    /// `llamador` votes at `block_timestamp` for candidate `candidato_id` of election
    /// `eleccion_id`.
    pub fn votar_a_candidato(&mut self, llamador: AccountId, block_timestamp: u64, eleccion_id: u64, candidato_id: u32) -> (r: Result<String, String>)
        ensures
            SistemaElecciones::paso_votar(*old(self), *final(self), llamador, block_timestamp, eleccion_id, candidato_id, r),
    {
        self.votar_a_candidato_privado(llamador, block_timestamp, eleccion_id, candidato_id)
    }

    pub fn votar_a_candidato_privado(&mut self, llamador: AccountId, block_timestamp: u64, eleccion_id: u64, candidato_id: u32) -> (r: Result<String, String>)
        ensures
            SistemaElecciones::paso_votar(*old(self), *final(self), llamador, block_timestamp, eleccion_id, candidato_id, r),
    {
        if !self.es_usuario_registrado(llamador) {
            return ERRORES::USUARIO_NO_REGISTRADO.como_error();
        }
        let k = match self.indice_eleccion(eleccion_id) {
            None => return ERRORES::ELECCION_INEXISTENTE.como_error(),
            Some(k) => k,
        };
        let iniciada = self.elecciones[k].votacion_iniciada;
        if !iniciada && block_timestamp < self.elecciones[k].fecha_inicio {
            return ERRORES::TODAVIA_NO_ES_FECHA.como_error();
        }
        if block_timestamp > self.elecciones[k].fecha_final {
            return ERRORES::VOTACION_FINALIZADA.como_error();
        }
        let r = self.elecciones[k].votar_candidato(llamador, candidato_id);
        let ghost votada = self.elecciones@[k as int];
        proof {
            let e = old(self).elecciones@[k as int];
            if e.numero_valido(candidato_id) && es_votante(e.votantes@, llamador) {
                let i = lema_primer_votante(e.votantes@, llamador);
                assert(es_primer_votante(e.votantes@, llamador, i));
            }
        }
        assert(votada.votacion_iniciada == iniciada);
        if r.is_ok() && !iniciada {
            self.elecciones[k].votacion_iniciada = true;
        }
        assert(Eleccion { votacion_iniciada: iniciada, ..self.elecciones@[k as int] } == votada);
        assert(self.elecciones@ =~= old(self).elecciones@.update(k as int, self.elecciones@[k as int]));
        r
    }

    /// The profile of candidate `candidato_id` of election `eleccion_id`.
    pub fn obtener_informacion_candidato_eleccion(&self, eleccion_id: u64, candidato_id: u32) -> (r: Result<String, String>)
        ensures
            !self.existe(eleccion_id) ==> falla_con(r, ERRORES::ELECCION_NO_ENCONTRADA_CONSULTA),
            self.existe(eleccion_id) ==> {
                let e = self.eleccion(eleccion_id);
                let c = e.candidatos@[candidato_id - 1];
                &&& !e.numero_valido(candidato_id) ==> falla_con(r, ERRORES::CANDIDATO_NO_ENCONTRADO)
                &&& e.numero_valido(candidato_id) && !self.registrado(c.id) ==> falla_con(r, ERRORES::PERFIL_CANDIDATO_FALTANTE)
                &&& forall|i: int| e.numero_valido(candidato_id) && #[trigger] es_primer_perfil(self.usuarios@, c.id, i)
                    ==> exito_con(r, ficha(self.usuarios@[i]))
            },
    {
        self.obtener_informacion_candidato_eleccion_privado(eleccion_id, candidato_id)
    }

    pub fn obtener_informacion_candidato_eleccion_privado(&self, eleccion_id: u64, candidato_id: u32) -> (r: Result<String, String>)
        ensures
            !self.existe(eleccion_id) ==> falla_con(r, ERRORES::ELECCION_NO_ENCONTRADA_CONSULTA),
            self.existe(eleccion_id) ==> {
                let e = self.eleccion(eleccion_id);
                let c = e.candidatos@[candidato_id - 1];
                &&& !e.numero_valido(candidato_id) ==> falla_con(r, ERRORES::CANDIDATO_NO_ENCONTRADO)
                &&& e.numero_valido(candidato_id) && !self.registrado(c.id) ==> falla_con(r, ERRORES::PERFIL_CANDIDATO_FALTANTE)
                &&& forall|i: int| e.numero_valido(candidato_id) && #[trigger] es_primer_perfil(self.usuarios@, c.id, i)
                    ==> exito_con(r, ficha(self.usuarios@[i]))
            },
    {
        let eleccion = match self.obtener_ref_eleccion_por_id(eleccion_id) {
            None => return ERRORES::ELECCION_NO_ENCONTRADA_CONSULTA.como_error(),
            Some(e) => e,
        };
        let candidato = match eleccion.obtener_informacion_candidato(candidato_id) {
            None => return ERRORES::CANDIDATO_NO_ENCONTRADO.como_error(),
            Some(c) => c,
        };
        match posicion_perfil(&self.usuarios, candidato.id) {
            None => ERRORES::PERFIL_CANDIDATO_FALTANTE.como_error(),
            Some(i) => {
                let r = Ok(ficha_de(&self.usuarios[i]));
                assert forall|j: int| #[trigger] es_primer_perfil(self.usuarios@, candidato.id, j)
                    implies j == i by {
                    if j < i {
                        assert(self.usuarios@[j].id != candidato.id);
                    } else if j > i {
                        assert(self.usuarios@[i as int].id != candidato.id);
                    }
                }
                r
            },
        }
    }

    /// Opens registration.
    pub fn activar_registro(&mut self, llamador: AccountId) -> (r: Result<String, String>)
        ensures
            SistemaElecciones::paso_cambiar_registro(*old(self), *final(self), llamador, true, r),
    {
        self.activar_registro_privado(llamador)
    }

    pub fn activar_registro_privado(&mut self, llamador: AccountId) -> (r: Result<String, String>)
        ensures
            SistemaElecciones::paso_cambiar_registro(*old(self), *final(self), llamador, true, r),
    {
        if !self.es_administrador(llamador) {
            return ERRORES::NO_ES_ADMINISTRADOR.como_error();
        }
        if self.registro_activado {
            return ERRORES::REGISTRO_YA_ACTIVADO.como_error();
        }
        self.registro_activado = true;
        Ok(String::from_str("Se activó el registro para los usuarios."))
    }

    /// Closes registration.
    pub fn desactivar_registro(&mut self, llamador: AccountId) -> (r: Result<String, String>)
        ensures
            SistemaElecciones::paso_cambiar_registro(*old(self), *final(self), llamador, false, r),
    {
        self.desactivar_registro_privado(llamador)
    }

    pub fn desactivar_registro_privado(&mut self, llamador: AccountId) -> (r: Result<String, String>)
        ensures
            SistemaElecciones::paso_cambiar_registro(*old(self), *final(self), llamador, false, r),
    {
        if !self.es_administrador(llamador) {
            return ERRORES::NO_ES_ADMINISTRADOR.como_error();
        }
        if !self.registro_activado {
            return ERRORES::REGISTRO_YA_DESACTIVADO.como_error();
        }
        self.registro_activado = false;
        Ok(String::from_str("Se desactivó el registro para los usuarios."))
    }

    /// Hands the administrator role to `id`.
    pub fn transferir_administrador(&mut self, llamador: AccountId, id: AccountId) -> (r: Result<String, String>)
        ensures
            !old(self).es_admin(llamador) ==> falla_con(r, ERRORES::NO_ES_ADMINISTRADOR) && *final(self) == *old(self),
            old(self).es_admin(llamador) ==> exito_con(r, "Se transfirió el rol de administrador correctamente."@)
                && *final(self) == (SistemaElecciones { administrador: id, ..*old(self) }),
    {
        self.transferir_administrador_privado(llamador, id)
    }

    pub fn transferir_administrador_privado(&mut self, llamador: AccountId, id: AccountId) -> (r: Result<String, String>)
        ensures
            !old(self).es_admin(llamador) ==> falla_con(r, ERRORES::NO_ES_ADMINISTRADOR) && *final(self) == *old(self),
            old(self).es_admin(llamador) ==> exito_con(r, "Se transfirió el rol de administrador correctamente."@)
                && *final(self) == (SistemaElecciones { administrador: id, ..*old(self) }),
    {
        if !self.es_administrador(llamador) {
            return ERRORES::NO_ES_ADMINISTRADOR.como_error();
        }
        self.administrador = id;
        Ok(String::from_str("Se transfirió el rol de administrador correctamente."))
    }

    /// Makes `id` the report generator.
    pub fn asignar_generador_reportes(&mut self, llamador: AccountId, id: AccountId) -> (r: Result<String, String>)
        ensures
            !old(self).es_admin(llamador) ==> falla_con(r, ERRORES::NO_ES_ADMINISTRADOR) && *final(self) == *old(self),
            old(self).es_admin(llamador) ==> exito_con(r, "Se asigno el generador reportes correctamente."@)
                && *final(self) == (SistemaElecciones { generador_reportes: Some(id), ..*old(self) }),
    {
        self.asignar_generador_reportes_privado(llamador, id)
    }

    pub fn asignar_generador_reportes_privado(&mut self, llamador: AccountId, id: AccountId) -> (r: Result<String, String>)
        ensures
            !old(self).es_admin(llamador) ==> falla_con(r, ERRORES::NO_ES_ADMINISTRADOR) && *final(self) == *old(self),
            old(self).es_admin(llamador) ==> exito_con(r, "Se asigno el generador reportes correctamente."@)
                && *final(self) == (SistemaElecciones { generador_reportes: Some(id), ..*old(self) }),
    {
        if !self.es_administrador(llamador) {
            return ERRORES::NO_ES_ADMINISTRADOR.como_error();
        }
        self.generador_reportes = Some(id);
        Ok(String::from_str("Se asigno el generador reportes correctamente."))
    }

    /// Name, surname and national id of a registered user, shown only to the report
    /// generator and the administrator: anyone else gets `None`, as for an unknown user.
    pub fn obtener_informacion_usuario(&self, llamador: AccountId, user_id: AccountId) -> (r: Option<(String, String, String)>)
        ensures
            !self.puede_ver_reportes(llamador) || !self.registrado(user_id) <==> r is None,
            forall|i: int| self.puede_ver_reportes(llamador) && #[trigger] es_primer_perfil(self.usuarios@, user_id, i)
                ==> (r matches Some(t) && t.0@ == self.usuarios@[i].nombre@ && t.1@ == self.usuarios@[i].apellido@
                    && t.2@ == self.usuarios@[i].dni@),
    {
        self.obtener_informacion_usuario_privado(llamador, user_id)
    }

    pub fn obtener_informacion_usuario_privado(&self, llamador: AccountId, user_id: AccountId) -> (r: Option<(String, String, String)>)
        ensures
            !self.puede_ver_reportes(llamador) || !self.registrado(user_id) <==> r is None,
            forall|i: int| self.puede_ver_reportes(llamador) && #[trigger] es_primer_perfil(self.usuarios@, user_id, i)
                ==> (r matches Some(t) && t.0@ == self.usuarios@[i].nombre@ && t.1@ == self.usuarios@[i].apellido@
                    && t.2@ == self.usuarios@[i].dni@),
    {
        if !self.es_generador_reportes(llamador) && !self.es_administrador(llamador) {
            return None;
        }
        match posicion_perfil(&self.usuarios, user_id) {
            None => None,
            Some(i) => {
                let u = &self.usuarios[i];
                let r = Some((u.nombre.clone(), u.apellido.clone(), u.dni.clone()));
                assert forall|j: int| #[trigger] es_primer_perfil(self.usuarios@, user_id, j)
                    implies j == i by {
                    if j < i {
                        assert(self.usuarios@[j].id != user_id);
                    } else if j > i {
                        assert(self.usuarios@[i as int].id != user_id);
                    }
                }
                r
            },
        }
    }

    /// Each voter of a closed election and whether it voted, for the report generator
    /// or the administrator.
    pub fn obtener_votantes_eleccion_por_id(&mut self, llamador: AccountId, block_timestamp: u64, eleccion_id: u64) -> (r: Result<Vec<(AccountId, bool)>, String>)
        ensures
            *final(self) == *old(self),
            match old(self).falla_consulta(llamador, block_timestamp, eleccion_id) {
                Some(f) => falla_con(r, f),
                None => r matches Ok(v) && v@ == SistemaElecciones::datos_votantes(old(self).eleccion(eleccion_id)),
            },
    {
        self.obtener_votantes_eleccion_por_id_privado(llamador, block_timestamp, eleccion_id)
    }

    pub fn obtener_votantes_eleccion_por_id_privado(&mut self, llamador: AccountId, block_timestamp: u64, eleccion_id: u64) -> (r: Result<Vec<(AccountId, bool)>, String>)
        ensures
            *final(self) == *old(self),
            match old(self).falla_consulta(llamador, block_timestamp, eleccion_id) {
                Some(f) => falla_con(r, f),
                None => r matches Ok(v) && v@ == SistemaElecciones::datos_votantes(old(self).eleccion(eleccion_id)),
            },
    {
        if !self.es_generador_reportes(llamador) && !self.es_administrador(llamador) {
            return ERRORES::SIN_PERMISO_REPORTES.como_error();
        }
        let k = match self.indice_eleccion(eleccion_id) {
            None => return ERRORES::ELECCION_ENVIADA_INEXISTENTE.como_error(),
            Some(k) => k,
        };
        let e = &self.elecciones[k];
        if e.fecha_final > block_timestamp {
            return ERRORES::ELECCION_NO_FINALIZADA.como_error();
        }
        let mut datos: Vec<(AccountId, bool)> = Vec::new();
        let mut i: usize = 0;
        while i < e.votantes.len()
            invariant
                i <= e.votantes@.len(),
                datos@ == SistemaElecciones::datos_votantes(*e).subrange(0, i as int),
            decreases e.votantes@.len() - i,
        {
            datos.push((e.votantes[i].id, e.votantes[i].voto_emitido));
            i = i + 1;
            assert(datos@ =~= SistemaElecciones::datos_votantes(*e).subrange(0, i as int));
        }
        assert(datos@ =~= SistemaElecciones::datos_votantes(*e));
        Ok(datos)
    }

    /// Each candidate of a closed election with its tally, for the report generator or
    /// the administrator.
    pub fn obtener_candidatos_eleccion_por_id(&mut self, llamador: AccountId, block_timestamp: u64, eleccion_id: u64) -> (r: Result<Vec<(AccountId, u32)>, String>)
        ensures
            *final(self) == *old(self),
            match old(self).falla_consulta(llamador, block_timestamp, eleccion_id) {
                Some(f) => falla_con(r, f),
                None => r matches Ok(v) && v@ == SistemaElecciones::datos_candidatos(old(self).eleccion(eleccion_id)),
            },
    {
        self.obtener_candidatos_eleccion_por_id_privado(llamador, block_timestamp, eleccion_id)
    }

    pub fn obtener_candidatos_eleccion_por_id_privado(&mut self, llamador: AccountId, block_timestamp: u64, eleccion_id: u64) -> (r: Result<Vec<(AccountId, u32)>, String>)
        ensures
            *final(self) == *old(self),
            match old(self).falla_consulta(llamador, block_timestamp, eleccion_id) {
                Some(f) => falla_con(r, f),
                None => r matches Ok(v) && v@ == SistemaElecciones::datos_candidatos(old(self).eleccion(eleccion_id)),
            },
    {
        if !self.es_generador_reportes(llamador) && !self.es_administrador(llamador) {
            return ERRORES::SIN_PERMISO_REPORTES.como_error();
        }
        let k = match self.indice_eleccion(eleccion_id) {
            None => return ERRORES::ELECCION_ENVIADA_INEXISTENTE.como_error(),
            Some(k) => k,
        };
        let e = &self.elecciones[k];
        if e.fecha_final > block_timestamp {
            return ERRORES::ELECCION_NO_FINALIZADA.como_error();
        }
        let mut datos: Vec<(AccountId, u32)> = Vec::new();
        let mut i: usize = 0;
        while i < e.candidatos.len()
            invariant
                i <= e.candidatos@.len(),
                datos@ == SistemaElecciones::datos_candidatos(*e).subrange(0, i as int),
            decreases e.candidatos@.len() - i,
        {
            datos.push((e.candidatos[i].id, e.candidatos[i].votos_totales));
            i = i + 1;
            assert(datos@ =~= SistemaElecciones::datos_candidatos(*e).subrange(0, i as int));
        }
        assert(datos@ =~= SistemaElecciones::datos_candidatos(*e));
        Ok(datos)
    }

    /// The results of election `eleccion_id` once closed at `block_timestamp`:
    /// computed on the first request, then handed out unchanged.
    pub fn obtener_resultados(&mut self, block_timestamp: u64, eleccion_id: u64) -> (r: Result<Resultados, String>)
        ensures
            SistemaElecciones::paso_obtener_resultados(*old(self), *final(self), block_timestamp, eleccion_id, r),
    {
        self.obtener_resultados_privado(block_timestamp, eleccion_id)
    }

    pub fn obtener_resultados_privado(&mut self, block_timestamp: u64, eleccion_id: u64) -> (r: Result<Resultados, String>)
        ensures
            SistemaElecciones::paso_obtener_resultados(*old(self), *final(self), block_timestamp, eleccion_id, r),
    {
        let k = match self.indice_eleccion(eleccion_id) {
            None => return ERRORES::RESULTADOS_ELECCION_INEXISTENTE.como_error(),
            Some(k) => k,
        };
        match self.elecciones[k].obtener_resultados_votacion(block_timestamp) {
            None => ERRORES::RESULTADOS_NO_PUBLICADOS.como_error(),
            Some(resultados) => Ok(resultados),
        }
    }
}

} // verus!
