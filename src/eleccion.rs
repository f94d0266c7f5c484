use vstd::prelude::*;
use vstd::string::StringExecFns;

use crate::cuenta::AccountId;
use crate::mensajes::{exito_con, falla_con, ERRORES};

verus! {

/// The role requested when joining an election.
#[allow(non_camel_case_types)]
#[derive(Clone, Copy, Debug, PartialEq, Eq, Structural)]
pub enum TIPO_DE_USUARIO {
    VOTANTE,
    CANDIDATO,
}

/// A voter enrolled in one election, and whether that voter has cast a vote.
#[derive(Clone, Copy, Debug, PartialEq)]
pub struct Votante {
    pub id: AccountId,
    pub voto_emitido: bool,
}

/// A candidate of one election: its 1-based number and its running tally.
#[derive(Clone, Copy, Debug, PartialEq)]
pub struct CandidatoConteo {
    pub id: AccountId,
    pub candidato_id: u32,
    pub votos_totales: u32,
}

/// Final figures of an election, computed once after it closes.
#[derive(Clone, Debug, PartialEq)]
pub struct Resultados {
    /// Enrolled voters, whether they voted or not.
    pub votos_totales: u64,
    /// Voters who cast a vote.
    pub votos_realizados: u64,
    /// Each candidate with its tally, in candidate-number order.
    pub votos_candidatos: Vec<(AccountId, u64)>,
}

/// One election and everything enrolled in it.
#[derive(Debug, PartialEq)]
pub struct Eleccion {
    pub id: u64,
    pub candidatos: Vec<CandidatoConteo>,
    pub votantes: Vec<Votante>,
    pub usuarios_rechazados: Vec<AccountId>,
    pub usuarios_pendientes: Vec<(AccountId, TIPO_DE_USUARIO)>,
    pub votacion_iniciada: bool,
    pub fecha_inicio: u64,
    pub fecha_final: u64,
    pub resultados: Option<Resultados>,
}

/// `i` is the first position of `v` that holds a record of `id`.
pub open spec fn es_primer_votante(v: Seq<Votante>, id: AccountId, i: int) -> bool {
    &&& 0 <= i < v.len()
    &&& v[i].id == id
    &&& forall|j: int| 0 <= j < i ==> #[trigger] v[j].id != id
}

/// Some record of `v` belongs to `id`.
pub open spec fn es_votante(v: Seq<Votante>, id: AccountId) -> bool {
    exists|i: int| 0 <= i < v.len() && #[trigger] v[i].id == id
}

/// Number of records of `v` whose vote was cast.
pub open spec fn votos_emitidos(v: Seq<Votante>) -> nat
    decreases v.len(),
{
    if v.len() == 0 {
        0
    } else {
        votos_emitidos(v.drop_last()) + if v.last().voto_emitido { 1nat } else { 0nat }
    }
}

/// Each candidate's owner with its tally widened to 64 bits.
pub open spec fn votos_por_candidato(c: Seq<CandidatoConteo>) -> Seq<(AccountId, u64)> {
    c.map_values(|x: CandidatoConteo| (x.id, x.votos_totales as u64))
}

impl Resultados {
    /// `self` and `otro` carry the same figures.
    pub open spec fn mismo_contenido(self, otro: Resultados) -> bool {
        &&& self.votos_totales == otro.votos_totales
        &&& self.votos_realizados == otro.votos_realizados
        &&& self.votos_candidatos@ == otro.votos_candidatos@
    }

    /// An independent copy of the figures.
    pub fn copia(&self) -> (r: Resultados)
        ensures
            r.mismo_contenido(*self),
    {
        let mut votos: Vec<(AccountId, u64)> = Vec::new();
        let mut i: usize = 0;
        while i < self.votos_candidatos.len()
            invariant
                i <= self.votos_candidatos@.len(),
                votos@ == self.votos_candidatos@.subrange(0, i as int),
            decreases self.votos_candidatos@.len() - i,
        {
            votos.push(self.votos_candidatos[i]);
            i = i + 1;
            assert(votos@ =~= self.votos_candidatos@.subrange(0, i as int));
        }
        assert(votos@ =~= self.votos_candidatos@);
        Resultados {
            votos_totales: self.votos_totales,
            votos_realizados: self.votos_realizados,
            votos_candidatos: votos,
        }
    }
}

impl Eleccion {
    /// `id` has a request waiting in this election's admission queue.
    pub open spec fn tiene_pendiente(self, id: AccountId) -> bool {
        exists|i: int|
            0 <= i < self.usuarios_pendientes@.len() && #[trigger] self.usuarios_pendientes@[i].0 == id
    }

    /// `n` names one of the candidates: numbers run from 1 to the number of candidates.
    pub open spec fn numero_valido(self, n: u32) -> bool {
        1 <= n && n <= self.candidatos@.len()
    }

    /// Every candidate carries its 1-based position as its number.
    pub open spec fn numeracion_consecutiva(self) -> bool {
        forall|i: int|
            0 <= i < self.candidatos@.len() ==> #[trigger] self.candidatos@[i].candidato_id == i + 1
    }

    /// A cast vote always sits on the voter's first record.
    pub open spec fn votos_en_primer_registro(self) -> bool {
        forall|j: int|
            0 <= j < self.votantes@.len() && (#[trigger] self.votantes@[j]).voto_emitido
                ==> es_primer_votante(self.votantes@, self.votantes@[j].id, j)
    }

    /// The figures that closing this election publishes.
    pub open spec fn resultados_al_cierre(self, r: Resultados) -> bool {
        &&& r.votos_totales == self.votantes@.len()
        &&& r.votos_realizados == votos_emitidos(self.votantes@)
        &&& r.votos_candidatos@ == votos_por_candidato(self.candidatos@)
    }

    /// Outcome of a vote by `votante` for candidate number `n`, from `antes` to `despues`.
    pub open spec fn paso_votar(
        antes: Eleccion,
        despues: Eleccion,
        votante: AccountId,
        n: u32,
        r: Result<String, String>,
    ) -> bool {
        if !antes.numero_valido(n) {
            falla_con(r, ERRORES::CANDIDATO_INEXISTENTE) && despues == antes
        } else if !es_votante(antes.votantes@, votante) {
            falla_con(r, ERRORES::NO_REGISTRADO_EN_ELECCION) && despues == antes
        } else {
            forall|i: int| #[trigger]
                es_primer_votante(antes.votantes@, votante, i) ==> {
                    let c = antes.candidatos@[n - 1];
                    if antes.votantes@[i].voto_emitido {
                        falla_con(r, ERRORES::YA_VOTO) && despues == antes
                    } else if c.votos_totales == u32::MAX {
                        falla_con(r, ERRORES::OVERFLOW_VOTO) && despues == antes
                    } else {
                        &&& exito_con(r, "Voto emitido exitosamente."@)
                        &&& despues.votantes@ == antes.votantes@.update(
                            i,
                            Votante { id: votante, voto_emitido: true },
                        )
                        &&& despues.candidatos@ == antes.candidatos@.update(
                            n - 1,
                            CandidatoConteo { votos_totales: (c.votos_totales + 1) as u32, ..c },
                        )
                        &&& despues.id == antes.id
                        &&& despues.usuarios_rechazados == antes.usuarios_rechazados
                        &&& despues.usuarios_pendientes == antes.usuarios_pendientes
                        &&& despues.votacion_iniciada == antes.votacion_iniciada
                        &&& despues.fecha_inicio == antes.fecha_inicio
                        &&& despues.fecha_final == antes.fecha_final
                        &&& despues.resultados == antes.resultados
                    }
                }
        }
    }

    /// Outcome of deciding the request at the head of the admission queue.
    pub open spec fn paso_procesar_pendiente(
        antes: Eleccion,
        despues: Eleccion,
        aceptar: bool,
        r: Result<String, String>,
    ) -> bool {
        let cola = antes.usuarios_pendientes@;
        if cola.len() == 0 {
            falla_con(r, ERRORES::SIN_USUARIOS_PENDIENTES) && despues == antes
        } else {
            let (usuario, tipo) = cola[0];
            let retirado = {
                &&& despues.usuarios_pendientes@ == cola.drop_first()
                &&& despues.id == antes.id
                &&& despues.votacion_iniciada == antes.votacion_iniciada
                &&& despues.fecha_inicio == antes.fecha_inicio
                &&& despues.fecha_final == antes.fecha_final
                &&& despues.resultados == antes.resultados
            };
            if !aceptar {
                &&& exito_con(r, "Usuario rechazado exitosamente."@)
                &&& retirado
                &&& despues.usuarios_rechazados@ == antes.usuarios_rechazados@.push(usuario)
                &&& despues.votantes == antes.votantes
                &&& despues.candidatos == antes.candidatos
            } else if tipo == TIPO_DE_USUARIO::VOTANTE {
                &&& exito_con(r, "Usuario agregado exitosamente."@)
                &&& retirado
                &&& despues.votantes@ == antes.votantes@.push(
                    Votante { id: usuario, voto_emitido: false },
                )
                &&& despues.usuarios_rechazados == antes.usuarios_rechazados
                &&& despues.candidatos == antes.candidatos
            } else if antes.candidatos@.len() >= u32::MAX {
                falla_con(r, ERRORES::OVERFLOW_ID_CANDIDATO) && despues == antes
            } else {
                &&& exito_con(r, "Usuario agregado exitosamente."@)
                &&& retirado
                &&& despues.candidatos@ == antes.candidatos@.push(
                    CandidatoConteo {
                        id: usuario,
                        candidato_id: (antes.candidatos@.len() + 1) as u32,
                        votos_totales: 0,
                    },
                )
                &&& despues.usuarios_rechazados == antes.usuarios_rechazados
                &&& despues.votantes == antes.votantes
            }
        }
    }

    /// Outcome of asking for the results at time `ahora`.
    pub open spec fn paso_resultados(
        antes: Eleccion,
        despues: Eleccion,
        ahora: u64,
        r: Option<Resultados>,
    ) -> bool {
        if antes.fecha_final > ahora {
            r is None && despues == antes
        } else {
            match antes.resultados {
                Some(guardados) => {
                    &&& despues == antes
                    &&& r matches Some(x) && x.mismo_contenido(guardados)
                },
                None => {
                    &&& despues.resultados matches Some(nuevos)
                    &&& antes.resultados_al_cierre(nuevos)
                    &&& r matches Some(x) && x.mismo_contenido(nuevos)
                    &&& despues.id == antes.id
                    &&& despues.candidatos == antes.candidatos
                    &&& despues.votantes == antes.votantes
                    &&& despues.usuarios_rechazados == antes.usuarios_rechazados
                    &&& despues.usuarios_pendientes == antes.usuarios_pendientes
                    &&& despues.votacion_iniciada == antes.votacion_iniciada
                    &&& despues.fecha_inicio == antes.fecha_inicio
                    &&& despues.fecha_final == antes.fecha_final
                },
            }
        }
    }

    /// Whether `id` has a request waiting in this election's admission queue.
    pub fn contiene_usuario_pendiente(&self, id: AccountId) -> (r: bool)
        ensures
            r == self.tiene_pendiente(id),
    {
        let mut i: usize = 0;
        while i < self.usuarios_pendientes.len()
            invariant
                i <= self.usuarios_pendientes@.len(),
                forall|k: int| 0 <= k < i ==> #[trigger] self.usuarios_pendientes@[k].0 != id,
            decreases self.usuarios_pendientes@.len() - i,
        {
            if self.usuarios_pendientes[i].0 == id {
                return true;
            }
            i = i + 1;
        }
        false
    }

    /// Whether `candidato_id` is the number of one of the candidates.
    pub fn existe_candidato(&self, candidato_id: u32) -> (r: bool)
        ensures
            r == self.numero_valido(candidato_id),
    {
        candidato_id >= 1 && candidato_id as usize <= self.candidatos.len()
    }

    /// The candidate numbered `candidato_id`, if there is one.
    pub fn obtener_informacion_candidato(&self, candidato_id: u32) -> (r: Option<&CandidatoConteo>)
        ensures
            r is Some <==> self.numero_valido(candidato_id),
            r matches Some(c) ==> *c == self.candidatos@[candidato_id - 1],
    {
        if !self.existe_candidato(candidato_id) {
            return None;
        }
        Some(&self.candidatos[(candidato_id - 1) as usize])
    }

    /// Casts the vote of `votante_id` for candidate number `candidato_id`.
    /// The voter's flag is set before the tally grows; a tally that cannot grow
    /// makes the vote fail with the flag as it was.
    pub fn votar_candidato(&mut self, votante_id: AccountId, candidato_id: u32) -> (r: Result<
        String,
        String,
    >)
        ensures
            Eleccion::paso_votar(*old(self), *final(self), votante_id, candidato_id, r),
    {
        if !self.existe_candidato(candidato_id) {
            return ERRORES::CANDIDATO_INEXISTENTE.como_error();
        }
        let i = match posicion_votante(&self.votantes, votante_id) {
            None => return ERRORES::NO_REGISTRADO_EN_ELECCION.como_error(),
            Some(i) => i,
        };
        if self.votantes[i].voto_emitido {
            return ERRORES::YA_VOTO.como_error();
        }
        let indice = (candidato_id - 1) as usize;
        let candidato = self.candidatos[indice];
        let votos = match candidato.votos_totales.checked_add(1) {
            None => return ERRORES::OVERFLOW_VOTO.como_error(),
            Some(votos) => votos,
        };
        self.votantes.set(i, Votante { id: votante_id, voto_emitido: true });
        self.candidatos.set(indice, CandidatoConteo { votos_totales: votos, ..candidato });
        let r = Ok(String::from_str("Voto emitido exitosamente."));
        assert forall|k: int| #[trigger]
            es_primer_votante(old(self).votantes@, votante_id, k) implies k == i by {
            if k < i {
                assert(old(self).votantes@[k].id != votante_id);
            } else if k > i {
                assert(old(self).votantes@[i as int].id != votante_id);
            }
        }
        r
    }

    /// Accepts or rejects the request at the head of the admission queue.
    /// An accepted voter is enrolled without a vote; an accepted candidate gets
    /// the next number; a rejected request is remembered.
    pub fn procesar_siguiente_usuario_pendiente(&mut self, aceptar_usuario: bool) -> (r: Result<
        String,
        String,
    >)
        ensures
            Eleccion::paso_procesar_pendiente(*old(self), *final(self), aceptar_usuario, r),
    {
        if self.usuarios_pendientes.len() == 0 {
            return ERRORES::SIN_USUARIOS_PENDIENTES.como_error();
        }
        let (usuario, tipo) = self.usuarios_pendientes[0];
        if aceptar_usuario && tipo == TIPO_DE_USUARIO::CANDIDATO && self.candidatos.len()
            >= u32::MAX as usize {
            return ERRORES::OVERFLOW_ID_CANDIDATO.como_error();
        }
        self.usuarios_pendientes.remove(0);
        assert(self.usuarios_pendientes@ =~= old(self).usuarios_pendientes@.drop_first());
        if aceptar_usuario {
            match tipo {
                TIPO_DE_USUARIO::VOTANTE => {
                    self.votantes.push(Votante { id: usuario, voto_emitido: false });
                },
                TIPO_DE_USUARIO::CANDIDATO => {
                    let candidato_id = self.candidatos.len() as u32 + 1;
                    self.candidatos.push(
                        CandidatoConteo { id: usuario, candidato_id, votos_totales: 0 },
                    );
                },
            }
            Ok(String::from_str("Usuario agregado exitosamente."))
        } else {
            self.usuarios_rechazados.push(usuario);
            Ok(String::from_str("Usuario rechazado exitosamente."))
        }
    }

    /// The results, once the election has closed at `block_timestamp`: computed
    /// on the first request and kept, then handed out unchanged.
    pub fn obtener_resultados_votacion(&mut self, block_timestamp: u64) -> (r: Option<
        Resultados,
    >)
        ensures
            Eleccion::paso_resultados(*old(self), *final(self), block_timestamp, r),
    {
        if self.fecha_final > block_timestamp {
            return None;
        }
        match &self.resultados {
            Some(guardados) => {
                return Some(guardados.copia());
            },
            None => {},
        }
        let nuevos = Resultados {
            votos_totales: self.votantes.len() as u64,
            votos_realizados: contar_votos_emitidos(&self.votantes),
            votos_candidatos: tallies_de(&self.candidatos),
        };
        let copia = nuevos.copia();
        self.resultados = Some(nuevos);
        Some(copia)
    }
}

/// The first position of `votantes` that holds a record of `id`.
fn posicion_votante(votantes: &Vec<Votante>, id: AccountId) -> (r: Option<usize>)
    ensures
        r matches Some(i) ==> es_primer_votante(votantes@, id, i as int),
        r is None ==> !es_votante(votantes@, id),
{
    let mut i: usize = 0;
    while i < votantes.len()
        invariant
            i <= votantes@.len(),
            forall|k: int| 0 <= k < i ==> #[trigger] votantes@[k].id != id,
        decreases votantes@.len() - i,
    {
        if votantes[i].id == id {
            return Some(i);
        }
        i = i + 1;
    }
    None
}

fn contar_votos_emitidos(votantes: &Vec<Votante>) -> (r: u64)
    ensures
        r == votos_emitidos(votantes@),
{
    let mut cuenta: u64 = 0;
    let mut i: usize = 0;
    while i < votantes.len()
        invariant
            i <= votantes@.len(),
            cuenta == votos_emitidos(votantes@.subrange(0, i as int)),
            cuenta <= i,
        decreases votantes@.len() - i,
    {
        assert(votantes@.subrange(0, i as int + 1).drop_last() =~= votantes@.subrange(0, i as int));
        if votantes[i].voto_emitido {
            cuenta = cuenta + 1;
        }
        i = i + 1;
    }
    assert(votantes@.subrange(0, i as int) =~= votantes@);
    cuenta
}

fn tallies_de(candidatos: &Vec<CandidatoConteo>) -> (r: Vec<(AccountId, u64)>)
    ensures
        r@ == votos_por_candidato(candidatos@),
{
    let mut r: Vec<(AccountId, u64)> = Vec::new();
    let mut i: usize = 0;
    while i < candidatos.len()
        invariant
            i <= candidatos@.len(),
            r@ == votos_por_candidato(candidatos@.subrange(0, i as int)),
        decreases candidatos@.len() - i,
    {
        let c = candidatos[i];
        r.push((c.id, c.votos_totales as u64));
        i = i + 1;
        assert(r@ =~= votos_por_candidato(candidatos@.subrange(0, i as int)));
    }
    assert(candidatos@.subrange(0, i as int) =~= candidatos@);
    r
}

} // verus!
