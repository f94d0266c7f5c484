use vstd::prelude::*;

use crate::cuenta::AccountId;
use crate::eleccion::{es_primer_votante, es_votante, Eleccion, Resultados, Votante, TIPO_DE_USUARIO};
use crate::mensajes::{falla_con, ERRORES};
use crate::sistema::SistemaElecciones;

verus! {

/// A voter that has a record in `v` has a first one.
pub proof fn lema_primer_votante(v: Seq<Votante>, id: AccountId) -> (i: int)
    requires
        es_votante(v, id),
    ensures
        es_primer_votante(v, id, i),
    decreases v.len(),
{
    let previos = v.drop_last();
    if es_votante(previos, id) {
        let i = lema_primer_votante(previos, id);
        assert forall|j: int| 0 <= j < i implies #[trigger] v[j].id != id by {
            assert(v[j] == previos[j]);
        }
        i
    } else {
        let k = choose|k: int| 0 <= k < v.len() && #[trigger] v[k].id == id;
        if k < v.len() - 1 {
            assert(previos[k] == v[k]);
        }
        assert forall|j: int| 0 <= j < v.len() - 1 implies #[trigger] v[j].id != id by {
            assert(previos[j] == v[j]);
        }
        v.len() - 1
    }
}

/// Accepting a candidate numbers it one past the candidates already there, and leaves
/// every earlier candidate where and as it was: numbers are never reused or reordered.
pub proof fn lema_numero_de_candidato(
    antes: Eleccion,
    despues: Eleccion,
    r: Result<String, String>,
)
    requires
        Eleccion::paso_procesar_pendiente(antes, despues, true, r),
        r is Ok,
        antes.usuarios_pendientes@.len() > 0,
        antes.usuarios_pendientes@[0].1 == TIPO_DE_USUARIO::CANDIDATO,
    ensures
        despues.candidatos@.len() == antes.candidatos@.len() + 1,
        despues.candidatos@.last().candidato_id == antes.candidatos@.len() + 1,
        despues.candidatos@.subrange(0, antes.candidatos@.len() as int) == antes.candidatos@,
{
    assert(despues.candidatos@.subrange(0, antes.candidatos@.len() as int) =~= antes.candidatos@);
}

/// Deciding requests and casting votes keep every candidate numbered by its position.
pub proof fn lema_numeracion_se_conserva(
    antes: Eleccion,
    despues: Eleccion,
    aceptar: bool,
    votante: AccountId,
    n: u32,
    r: Result<String, String>,
)
    requires
        antes.numeracion_consecutiva(),
        Eleccion::paso_procesar_pendiente(antes, despues, aceptar, r) || Eleccion::paso_votar(
            antes,
            despues,
            votante,
            n,
            r,
        ),
    ensures
        despues.numeracion_consecutiva(),
{
    if Eleccion::paso_votar(antes, despues, votante, n, r) && antes.numero_valido(n) && es_votante(
        antes.votantes@,
        votante,
    ) {
        let i = lema_primer_votante(antes.votantes@, votante);
        assert(es_primer_votante(antes.votantes@, votante, i));
    }
}

/// A voter votes once: after a vote of theirs has been counted, a further vote for any
/// existing candidate fails with `YA_VOTO` and changes nothing.
pub proof fn lema_un_solo_voto(
    e0: Eleccion,
    e1: Eleccion,
    e2: Eleccion,
    votante: AccountId,
    n: u32,
    m: u32,
    r1: Result<String, String>,
    r2: Result<String, String>,
)
    requires
        Eleccion::paso_votar(e0, e1, votante, n, r1),
        r1 is Ok,
        Eleccion::paso_votar(e1, e2, votante, m, r2),
        e1.numero_valido(m),
    ensures
        falla_con(r2, ERRORES::YA_VOTO),
        e2 == e1,
{
    let i = lema_primer_votante(e0.votantes@, votante);
    assert(es_primer_votante(e0.votantes@, votante, i));
    assert(e1.votantes@[i].id == votante && e1.votantes@[i].voto_emitido);
    assert forall|j: int| 0 <= j < i implies #[trigger] e1.votantes@[j].id != votante by {
        assert(e1.votantes@[j] == e0.votantes@[j]);
    }
    assert(es_primer_votante(e1.votantes@, votante, i));
    assert(es_votante(e1.votantes@, votante));
}

/// Results are published once: a later request, after any change that leaves the
/// stored results and the closing time of the election as they were, returns the same
/// figures and changes no election.
pub proof fn lema_resultados_idempotentes(
    s0: SistemaElecciones,
    s1: SistemaElecciones,
    s1b: SistemaElecciones,
    s2: SistemaElecciones,
    t1: u64,
    t2: u64,
    id: u64,
    r1: Result<Resultados, String>,
    r2: Result<Resultados, String>,
)
    requires
        SistemaElecciones::paso_obtener_resultados(s0, s1, t1, id, r1),
        r1 is Ok,
        s1b.existe(id),
        s1b.eleccion(id).resultados == s1.eleccion(id).resultados,
        s1b.eleccion(id).fecha_final <= t2,
        SistemaElecciones::paso_obtener_resultados(s1b, s2, t2, id, r2),
    ensures
        r2 is Ok,
        r2->Ok_0.mismo_contenido(r1->Ok_0),
        s2.elecciones@ == s1b.elecciones@,
{
    assert(s1.eleccion(id) == s1.elecciones@.update(id - 1, s1.eleccion(id))[id - 1]);
    assert(s2.elecciones@ =~= s1b.elecciones@);
}

/// Once voting has started, a request to join fails with `VOTACION_YA_COMENZO`
/// whatever the time.
pub proof fn lema_ingreso_con_votacion_iniciada(
    antes: SistemaElecciones,
    despues: SistemaElecciones,
    llamador: AccountId,
    ahora: u64,
    id: u64,
    tipo: TIPO_DE_USUARIO,
    r: Result<String, String>,
)
    requires
        SistemaElecciones::paso_ingresar(antes, despues, llamador, ahora, id, tipo, r),
        antes.registrado(llamador),
        antes.existe(id),
        !antes.eleccion(id).tiene_pendiente(llamador),
        antes.eleccion(id).votacion_iniciada,
    ensures
        falla_con(r, ERRORES::VOTACION_YA_COMENZO),
        despues == antes,
{
}

/// An election that has ended takes no request to join, though its vote never started:
/// the request fails with `ELECCION_FINALIZADA`.
pub proof fn lema_ingreso_tras_el_cierre(
    antes: SistemaElecciones,
    despues: SistemaElecciones,
    llamador: AccountId,
    ahora: u64,
    id: u64,
    tipo: TIPO_DE_USUARIO,
    r: Result<String, String>,
)
    requires
        SistemaElecciones::paso_ingresar(antes, despues, llamador, ahora, id, tipo, r),
        antes.registrado(llamador),
        antes.existe(id),
        !antes.eleccion(id).tiene_pendiente(llamador),
        !antes.eleccion(id).votacion_iniciada,
        ahora > antes.eleccion(id).fecha_final,
    ensures
        falla_con(r, ERRORES::ELECCION_FINALIZADA),
        despues == antes,
{
}

/// The global queue is first come, first served: a step decides the oldest request,
/// and of two requests behind it the earlier stays ahead.
pub proof fn lema_cola_global_fifo(
    antes: SistemaElecciones,
    despues: SistemaElecciones,
    llamador: AccountId,
    aceptar: bool,
    r: Result<String, String>,
    i: int,
    j: int,
)
    requires
        SistemaElecciones::paso_procesar_usuario(antes, despues, llamador, aceptar, r),
        r is Ok,
        0 < i < j < antes.usuarios_pendientes@.len(),
    ensures
        aceptar ==> despues.usuarios@.last() == antes.usuarios_pendientes@[0],
        !aceptar ==> despues.usuarios_rechazados@.last() == antes.usuarios_pendientes@[0].id,
        despues.usuarios_pendientes@[i - 1] == antes.usuarios_pendientes@[i],
        despues.usuarios_pendientes@[j - 1] == antes.usuarios_pendientes@[j],
{
}

/// A registration request joins the global queue at its end.
pub proof fn lema_registro_al_final(
    antes: SistemaElecciones,
    despues: SistemaElecciones,
    llamador: AccountId,
    nombre: String,
    apellido: String,
    dni: String,
    r: Result<String, String>,
)
    requires
        SistemaElecciones::paso_registrarse(antes, despues, llamador, nombre, apellido, dni, r),
        r is Ok,
    ensures
        despues.usuarios_pendientes@.len() == antes.usuarios_pendientes@.len() + 1,
        despues.usuarios_pendientes@.last().id == llamador,
        despues.usuarios_pendientes@.drop_last() == antes.usuarios_pendientes@,
{
    assert(despues.usuarios_pendientes@.drop_last() =~= antes.usuarios_pendientes@);
}

/// Each election's queue is first come, first served: a step decides the oldest
/// request, and of two requests behind it the earlier stays ahead.
pub proof fn lema_cola_de_eleccion_fifo(
    antes: Eleccion,
    despues: Eleccion,
    aceptar: bool,
    r: Result<String, String>,
    i: int,
    j: int,
)
    requires
        Eleccion::paso_procesar_pendiente(antes, despues, aceptar, r),
        r is Ok,
        0 < i < j < antes.usuarios_pendientes@.len(),
    ensures
        !aceptar ==> despues.usuarios_rechazados@.last() == antes.usuarios_pendientes@[0].0,
        aceptar && antes.usuarios_pendientes@[0].1 == TIPO_DE_USUARIO::VOTANTE
            ==> despues.votantes@.last().id == antes.usuarios_pendientes@[0].0,
        aceptar && antes.usuarios_pendientes@[0].1 == TIPO_DE_USUARIO::CANDIDATO
            ==> despues.candidatos@.last().id == antes.usuarios_pendientes@[0].0,
        despues.usuarios_pendientes@[i - 1] == antes.usuarios_pendientes@[i],
        despues.usuarios_pendientes@[j - 1] == antes.usuarios_pendientes@[j],
{
}

/// A request to join an election joins that election's queue at its end.
pub proof fn lema_ingreso_al_final(
    antes: SistemaElecciones,
    despues: SistemaElecciones,
    llamador: AccountId,
    ahora: u64,
    id: u64,
    tipo: TIPO_DE_USUARIO,
    r: Result<String, String>,
)
    requires
        SistemaElecciones::paso_ingresar(antes, despues, llamador, ahora, id, tipo, r),
        r is Ok,
    ensures
        antes.existe(id),
        despues.eleccion(id).usuarios_pendientes@ == antes.eleccion(id).usuarios_pendientes@.push(
            (llamador, tipo),
        ),
{
}

/// A registration request keeps every user in at most one of pending, registered and
/// rejected.
pub proof fn lema_registro_conserva_roles(
    antes: SistemaElecciones,
    despues: SistemaElecciones,
    llamador: AccountId,
    nombre: String,
    apellido: String,
    dni: String,
    r: Result<String, String>,
)
    requires
        antes.roles_disjuntos(),
        SistemaElecciones::paso_registrarse(antes, despues, llamador, nombre, apellido, dni, r),
    ensures
        despues.roles_disjuntos(),
{
    if r is Ok {
        let p = despues.usuarios_pendientes@;
        let viejos = antes.usuarios_pendientes@;
        assert forall|i: int, j: int| 0 <= i < j < p.len() implies #[trigger] p[i].id != #[trigger] p[j].id by {
            if j == viejos.len() {
                assert(p[i] == viejos[i]);
            } else {
                assert(p[i] == viejos[i] && p[j] == viejos[j]);
            }
        }
        assert forall|i: int| 0 <= i < p.len() implies !despues.registrado(#[trigger] p[i].id)
            && !despues.rechazado(p[i].id) by {
            if i < viejos.len() {
                assert(p[i] == viejos[i]);
            }
        }
    }
}

/// Deciding the head of the global queue keeps every user in at most one of pending,
/// registered and rejected.
pub proof fn lema_procesar_conserva_roles(
    antes: SistemaElecciones,
    despues: SistemaElecciones,
    llamador: AccountId,
    aceptar: bool,
    r: Result<String, String>,
)
    requires
        antes.roles_disjuntos(),
        SistemaElecciones::paso_procesar_usuario(antes, despues, llamador, aceptar, r),
    ensures
        despues.roles_disjuntos(),
{
    if r is Ok {
        let cola = antes.usuarios_pendientes@;
        let cabeza = cola[0];
        let p = despues.usuarios_pendientes@;
        assert forall|i: int, j: int| 0 <= i < j < p.len() implies #[trigger] p[i].id != #[trigger] p[j].id by {
            assert(p[i] == cola[i + 1] && p[j] == cola[j + 1]);
        }
        assert forall|i: int| 0 <= i < p.len() implies p[i].id != cabeza.id by {
            assert(p[i] == cola[i + 1]);
        }
        if aceptar {
            let u = despues.usuarios@;
            let viejos = antes.usuarios@;
            assert(!antes.registrado(cabeza.id) && !antes.rechazado(cabeza.id));
            assert forall|i: int, j: int| 0 <= i < j < u.len() implies #[trigger] u[i].id != #[trigger] u[j].id by {
                if j == viejos.len() {
                    assert(u[i] == viejos[i]);
                } else {
                    assert(u[i] == viejos[i] && u[j] == viejos[j]);
                }
            }
            assert forall|i: int| 0 <= i < p.len() implies !despues.registrado(#[trigger] p[i].id)
                && !despues.rechazado(p[i].id) by {
                assert(p[i] == cola[i + 1]);
                assert(!antes.registrado(cola[i + 1].id));
                if despues.registrado(p[i].id) {
                    let k = choose|k: int| 0 <= k < u.len() && #[trigger] u[k].id == p[i].id;
                    if k < viejos.len() {
                        assert(u[k] == viejos[k]);
                    }
                }
            }
            assert forall|i: int| 0 <= i < u.len() implies !despues.rechazado(#[trigger] u[i].id) by {
                if i < viejos.len() {
                    assert(u[i] == viejos[i]);
                }
            }
        } else {
            let x = despues.usuarios_rechazados@;
            let viejos = antes.usuarios_rechazados@;
            assert(!antes.rechazado(cabeza.id) && !antes.registrado(cabeza.id));
            assert forall|i: int, j: int| 0 <= i < j < x.len() implies #[trigger] x[i] != #[trigger] x[j] by {
                if j == viejos.len() {
                    assert(x[i] == viejos[i]);
                    assert(viejos.contains(x[i]));
                } else {
                    assert(x[i] == viejos[i] && x[j] == viejos[j]);
                }
            }
            assert forall|i: int| 0 <= i < p.len() implies !despues.registrado(#[trigger] p[i].id)
                && !despues.rechazado(p[i].id) by {
                assert(p[i] == cola[i + 1]);
                assert(!antes.rechazado(cola[i + 1].id));
                if despues.rechazado(p[i].id) {
                    let k = choose|k: int| 0 <= k < x.len() && #[trigger] x[k] == p[i].id;
                    if k < viejos.len() {
                        assert(x[k] == viejos[k]);
                        assert(viejos.contains(p[i].id));
                    }
                }
            }
            assert forall|i: int| 0 <= i < despues.usuarios@.len() implies !despues.rechazado(
                #[trigger] despues.usuarios@[i].id,
            ) by {
                let id = despues.usuarios@[i].id;
                assert(!antes.rechazado(id));
                assert(id != cabeza.id);
                if despues.rechazado(id) {
                    let k = choose|k: int| 0 <= k < x.len() && #[trigger] x[k] == id;
                    if k < viejos.len() {
                        assert(x[k] == viejos[k]);
                        assert(viejos.contains(id));
                    }
                }
            }
        }
    }
}

/// Voting leaves the stored results and the closing time of every election as they
/// were, so results already published stay what they were.
pub proof fn lema_votar_conserva_resultados(
    antes: SistemaElecciones,
    despues: SistemaElecciones,
    llamador: AccountId,
    ahora: u64,
    id: u64,
    n: u32,
    r: Result<String, String>,
    otra: u64,
)
    requires
        SistemaElecciones::paso_votar(antes, despues, llamador, ahora, id, n, r),
        antes.existe(otra),
    ensures
        despues.existe(otra),
        despues.eleccion(otra).resultados == antes.eleccion(otra).resultados,
        despues.eleccion(otra).fecha_final == antes.eleccion(otra).fecha_final,
{
    let e = antes.eleccion(id);
    if antes.existe(id) && e.numero_valido(n) && es_votante(e.votantes@, llamador) {
        let i = lema_primer_votante(e.votantes@, llamador);
        assert(es_primer_votante(e.votantes@, llamador, i));
    }
}

/// Deciding requests and casting votes keep every cast vote on the voter's first record.
pub proof fn lema_votos_en_primer_registro(
    antes: Eleccion,
    despues: Eleccion,
    aceptar: bool,
    votante: AccountId,
    n: u32,
    r: Result<String, String>,
)
    requires
        antes.votos_en_primer_registro(),
        Eleccion::paso_procesar_pendiente(antes, despues, aceptar, r) || Eleccion::paso_votar(
            antes,
            despues,
            votante,
            n,
            r,
        ),
    ensures
        despues.votos_en_primer_registro(),
{
    let v = antes.votantes@;
    let w = despues.votantes@;
    if Eleccion::paso_votar(antes, despues, votante, n, r) {
        if antes.numero_valido(n) && es_votante(v, votante) {
            let i = lema_primer_votante(v, votante);
            assert(es_primer_votante(v, votante, i));
            if r is Ok {
                assert forall|k: int| 0 <= k < w.len() implies #[trigger] w[k].id == v[k].id by {}
                assert forall|j: int| 0 <= j < w.len() && (#[trigger] w[j]).voto_emitido implies es_primer_votante(
                    w,
                    w[j].id,
                    j,
                ) by {
                    if j != i {
                        assert(v[j].voto_emitido);
                        assert(es_primer_votante(v, v[j].id, j));
                    }
                    assert forall|m: int| 0 <= m < j implies #[trigger] w[m].id != w[j].id by {
                        assert(w[m].id == v[m].id);
                    }
                }
            }
        }
    } else if antes.usuarios_pendientes@.len() > 0 && r is Ok && aceptar
        && antes.usuarios_pendientes@[0].1 == TIPO_DE_USUARIO::VOTANTE {
        assert forall|j: int| 0 <= j < w.len() && (#[trigger] w[j]).voto_emitido implies es_primer_votante(
            w,
            w[j].id,
            j,
        ) by {
            assert(j < v.len());
            assert(w[j] == v[j]);
            assert(es_primer_votante(v, v[j].id, j));
            assert forall|m: int| 0 <= m < j implies #[trigger] w[m].id != w[j].id by {
                assert(w[m] == v[m]);
            }
        }
    }
}

/// A voter who has a counted vote votes no more: while every cast vote sits on the
/// voter's first record, a vote for any existing candidate by someone with a voted
/// record fails with `YA_VOTO` and changes nothing.
pub proof fn lema_votante_que_ya_voto(
    antes: Eleccion,
    despues: Eleccion,
    votante: AccountId,
    n: u32,
    r: Result<String, String>,
    j: int,
)
    requires
        antes.votos_en_primer_registro(),
        Eleccion::paso_votar(antes, despues, votante, n, r),
        antes.numero_valido(n),
        0 <= j < antes.votantes@.len(),
        antes.votantes@[j].id == votante,
        antes.votantes@[j].voto_emitido,
    ensures
        falla_con(r, ERRORES::YA_VOTO),
        despues == antes,
{
    assert(es_primer_votante(antes.votantes@, votante, j));
    assert(es_votante(antes.votantes@, votante));
}

/// Asking to join, opening the vote, deciding an election's queue and creating an
/// election leave every existing election's stored results and closing time as they
/// were; with voting, that covers every operation that changes an election, so results
/// once published are handed out unchanged after any of them.
pub proof fn lema_operaciones_conservan_resultados(
    antes: SistemaElecciones,
    despues: SistemaElecciones,
    llamador: AccountId,
    ahora: u64,
    id: u64,
    tipo: TIPO_DE_USUARIO,
    aceptar: bool,
    inicio: Option<i64>,
    fin: Option<i64>,
    r: Result<String, String>,
)
    requires
        SistemaElecciones::paso_ingresar(antes, despues, llamador, ahora, id, tipo, r)
            || SistemaElecciones::paso_iniciar_votacion(antes, despues, llamador, ahora, id, r)
            || SistemaElecciones::paso_procesar_en_eleccion(antes, despues, llamador, id, aceptar, r)
            || SistemaElecciones::paso_crear_eleccion(antes, despues, llamador, inicio, fin, r),
    ensures
        SistemaElecciones::conserva_resultados(antes, despues),
{
    assert forall|otra: u64| #[trigger] antes.existe(otra) implies {
        &&& despues.existe(otra)
        &&& despues.eleccion(otra).resultados == antes.eleccion(otra).resultados
        &&& despues.eleccion(otra).fecha_final == antes.eleccion(otra).fecha_final
    } by {
        if SistemaElecciones::paso_crear_eleccion(antes, despues, llamador, inicio, fin, r) && r is Ok {
            let n = antes.elecciones@.len() as int;
            assert(despues.elecciones@.subrange(0, n)[otra - 1] == despues.elecciones@[otra - 1]);
        }
    }
}

/// Voting leaves every existing election's stored results and closing time as they were.
pub proof fn lema_votar_conserva_todos_los_resultados(
    antes: SistemaElecciones,
    despues: SistemaElecciones,
    llamador: AccountId,
    ahora: u64,
    id: u64,
    n: u32,
    r: Result<String, String>,
)
    requires
        SistemaElecciones::paso_votar(antes, despues, llamador, ahora, id, n, r),
    ensures
        SistemaElecciones::conserva_resultados(antes, despues),
{
    assert forall|otra: u64| #[trigger] antes.existe(otra) implies {
        &&& despues.existe(otra)
        &&& despues.eleccion(otra).resultados == antes.eleccion(otra).resultados
        &&& despues.eleccion(otra).fecha_final == antes.eleccion(otra).fecha_final
    } by {
        lema_votar_conserva_resultados(antes, despues, llamador, ahora, id, n, r, otra);
    }
}

/// Keeping stored results and closing times composes: a chain of steps that each keep
/// them keeps them as a whole.
pub proof fn lema_conserva_resultados_transitiva(
    s0: SistemaElecciones,
    s1: SistemaElecciones,
    s2: SistemaElecciones,
)
    requires
        SistemaElecciones::conserva_resultados(s0, s1),
        SistemaElecciones::conserva_resultados(s1, s2),
    ensures
        SistemaElecciones::conserva_resultados(s0, s2),
{
    assert forall|id: u64| #[trigger] s0.existe(id) implies s1.existe(id) by {}
}

/// Results are published once: after they were handed out, any later states reached by
/// steps that keep stored results and closing times give the same figures again.
pub proof fn lema_resultados_tras_operaciones(
    s0: SistemaElecciones,
    s1: SistemaElecciones,
    s1b: SistemaElecciones,
    s2: SistemaElecciones,
    t1: u64,
    t2: u64,
    id: u64,
    r1: Result<Resultados, String>,
    r2: Result<Resultados, String>,
)
    requires
        SistemaElecciones::paso_obtener_resultados(s0, s1, t1, id, r1),
        r1 is Ok,
        SistemaElecciones::conserva_resultados(s1, s1b),
        t2 >= t1,
        SistemaElecciones::paso_obtener_resultados(s1b, s2, t2, id, r2),
    ensures
        r2 is Ok,
        r2->Ok_0.mismo_contenido(r1->Ok_0),
{
    assert(s1.existe(id));
    assert(s1.eleccion(id) == s1.elecciones@.update(id - 1, s1.eleccion(id))[id - 1]);
    lema_resultados_idempotentes(s0, s1, s1b, s2, t1, t2, id, r1, r2);
}

} // verus!
