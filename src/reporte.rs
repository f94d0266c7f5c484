use vstd::prelude::*;
use vstd::string::StringExecFns;

use crate::cuenta::AccountId;
use crate::mensajes::{falla_con, ERRORES};

verus! {

/// A voter of a report: who, and whether the vote was cast.
pub type DatoVotante = (AccountId, bool);

/// A candidate of a report: who, and its tally.
pub type DatoCandidato = (AccountId, u32);

/// A profile as the reports show it: name, surname, national id.
pub type Perfil = (String, String, String);

/// Number of entries of `v` whose vote was cast.
pub open spec fn votos_efectivos(v: Seq<DatoVotante>) -> nat
    decreases v.len(),
{
    if v.len() == 0 {
        0
    } else {
        votos_efectivos(v.drop_last()) + if v.last().1 { 1nat } else { 0nat }
    }
}

/// `a / b` rounded up.
pub open spec fn division_hacia_arriba(a: nat, b: nat) -> nat
    recommends
        b > 0,
{
    ((a + b - 1) as nat) / b
}

/// `salida` lists `entrada` by descending tally, ties in their order in `entrada`;
/// `p` tells where in `entrada` each entry of `salida` comes from.
pub open spec fn orden_estable(entrada: Seq<DatoCandidato>, salida: Seq<DatoCandidato>, p: Seq<int>) -> bool {
    &&& p.len() == entrada.len()
    &&& salida.len() == entrada.len()
    &&& forall|k: int| 0 <= k < p.len() ==> 0 <= #[trigger] p[k] < entrada.len()
    &&& forall|k: int, l: int| 0 <= k < l < p.len() ==> p[k] != p[l]
    &&& forall|k: int| 0 <= k < p.len() ==> #[trigger] salida[k] == entrada[p[k]]
    &&& forall|k: int, l: int| 0 <= k < l < salida.len() ==> salida[k].1 >= salida[l].1
    &&& forall|k: int, l: int|
        0 <= k < l < salida.len() && salida[k].1 == salida[l].1 ==> p[k] < p[l]
}

/// `salida` is `entrada` sorted by descending tally, keeping the order of ties.
pub open spec fn ordenado_por_votos(entrada: Seq<DatoCandidato>, salida: Seq<DatoCandidato>) -> bool {
    exists|p: Seq<int>| orden_estable(entrada, salida, p)
}

/// Participation in an election: how many voters voted, and that number as a
/// percentage of all voters, rounded up. An election without voters has none.
pub fn participacion(votantes: &Vec<DatoVotante>) -> (r: Result<(u32, u32), String>)
    requires
        votantes@.len() <= u32::MAX,
    ensures
        votantes@.len() == 0 ==> falla_con(r, ERRORES::SIN_VOTANTES),
        votantes@.len() > 0 ==> (r matches Ok((efectivos, porcentaje)) && {
            &&& efectivos == votos_efectivos(votantes@)
            &&& porcentaje == division_hacia_arriba(efectivos as nat * 100, votantes@.len())
        }),
{
    let total = votantes.len() as u64;
    if total == 0 {
        return ERRORES::SIN_VOTANTES.como_error();
    }
    let mut efectivos: u64 = 0;
    let mut i: usize = 0;
    while i < votantes.len()
        invariant
            i <= votantes@.len(),
            efectivos == votos_efectivos(votantes@.subrange(0, i as int)),
            efectivos <= i,
        decreases votantes@.len() - i,
    {
        assert(votantes@.subrange(0, i as int + 1).drop_last() =~= votantes@.subrange(0, i as int));
        if votantes[i].1 {
            efectivos = efectivos + 1;
        }
        i = i + 1;
    }
    assert(votantes@.subrange(0, i as int) =~= votantes@);
    let porcentaje = (efectivos * 100 + total - 1) / total;
    assert(porcentaje <= 100) by (nonlinear_arith)
        requires
            porcentaje == (efectivos * 100 + total - 1) as int / total as int,
            efectivos <= total,
            total > 0,
    {
        assert(efectivos * 100 + total - 1 < 101 * total);
    }
    Ok((efectivos as u32, porcentaje as u32))
}

/// The candidates sorted by descending tally; candidates with equal tallies keep
/// their relative order.
pub fn ordenar_por_votos(candidatos: &Vec<DatoCandidato>) -> (r: Vec<DatoCandidato>)
    ensures
        ordenado_por_votos(candidatos@, r@),
{
    let mut r: Vec<DatoCandidato> = Vec::new();
    let ghost mut p: Seq<int> = Seq::empty();
    let mut i: usize = 0;
    while i < candidatos.len()
        invariant
            i <= candidatos@.len(),
            p.len() == i,
            r@.len() == i,
            forall|k: int| 0 <= k < i ==> 0 <= #[trigger] p[k] < i,
            forall|k: int, l: int| 0 <= k < l < i ==> p[k] != p[l],
            forall|k: int| 0 <= k < i ==> #[trigger] r@[k] == candidatos@[p[k]],
            forall|k: int, l: int| 0 <= k < l < i ==> r@[k].1 >= r@[l].1,
            forall|k: int, l: int| 0 <= k < l < i && r@[k].1 == r@[l].1 ==> p[k] < p[l],
        decreases candidatos@.len() - i,
    {
        let x = candidatos[i];
        let mut j: usize = 0;
        while j < r.len() && r[j].1 >= x.1
            invariant
                j <= r@.len(),
                forall|m: int| 0 <= m < j ==> #[trigger] r@[m].1 >= x.1,
            decreases r@.len() - j,
        {
            j = j + 1;
        }
        let ghost viejo_r = r@;
        let ghost viejo_p = p;
        assert(forall|m: int| j <= m < viejo_r.len() ==> #[trigger] viejo_r[m].1 < x.1) by {
            assert forall|m: int| j <= m < viejo_r.len() implies #[trigger] viejo_r[m].1 < x.1 by {
                if m > j {
                    assert(viejo_r[j as int].1 >= viejo_r[m].1);
                }
            }
        }
        r.insert(j, x);
        proof {
            p = p.insert(j as int, i as int);
            viejo_r.insert_ensures(j as int, x);
            viejo_p.insert_ensures(j as int, i as int);
            let ni = i as int + 1;
            // Where each new position came from before the insertion.
            assert forall|k: int| 0 <= k < ni implies 0 <= #[trigger] p[k] < ni by {
                if k > j {
                    assert(p[k] == viejo_p[k - 1]);
                }
            }
            assert forall|k: int| 0 <= k < ni implies #[trigger] r@[k] == candidatos@[p[k]] by {
                if k > j {
                    assert(r@[k] == viejo_r[k - 1]);
                    assert(p[k] == viejo_p[k - 1]);
                }
            }
            assert forall|k: int, l: int| 0 <= k < l < ni implies p[k] != p[l] by {
                if l > j && k > j {
                    assert(p[k] == viejo_p[k - 1] && p[l] == viejo_p[l - 1]);
                } else if l > j && k < j {
                    assert(p[l] == viejo_p[l - 1]);
                } else if l > j && k == j {
                    assert(p[l] == viejo_p[l - 1]);
                }
            }
            assert forall|k: int, l: int| 0 <= k < l < ni implies r@[k].1 >= r@[l].1 by {
                if l > j && k > j {
                    assert(r@[k] == viejo_r[k - 1] && r@[l] == viejo_r[l - 1]);
                } else if l > j && k < j {
                    assert(r@[l] == viejo_r[l - 1]);
                } else if l > j && k == j {
                    assert(r@[l] == viejo_r[l - 1]);
                }
            }
            assert forall|k: int, l: int| 0 <= k < l < ni && r@[k].1 == r@[l].1 implies p[k] < p[l] by {
                if l > j && k > j {
                    assert(r@[k] == viejo_r[k - 1] && r@[l] == viejo_r[l - 1]);
                    assert(p[k] == viejo_p[k - 1] && p[l] == viejo_p[l - 1]);
                } else if l > j && k < j {
                    assert(r@[l] == viejo_r[l - 1]);
                } else if l > j && k == j {
                    assert(r@[l] == viejo_r[l - 1]);
                }
            }
        }
        i = i + 1;
    }
    assert(orden_estable(candidatos@, r@, p));
    r
}

/// The profile shown for an account without one: three empty strings.
pub open spec fn perfil_desconocido(p: (Seq<char>, Seq<char>, Seq<char>)) -> bool {
    p.0.len() == 0 && p.1.len() == 0 && p.2.len() == 0
}

/// The views of a profile's three strings.
pub open spec fn vista_perfil(p: Perfil) -> (Seq<char>, Seq<char>, Seq<char>) {
    (p.0@, p.1@, p.2@)
}

/// `fila` shows `id` with `perfil`, or with the unknown profile when there is none.
pub open spec fn fila_con_perfil(
    fila: (AccountId, Seq<char>, Seq<char>, Seq<char>),
    id: AccountId,
    perfil: Option<(Seq<char>, Seq<char>, Seq<char>)>,
) -> bool {
    &&& fila.0 == id
    &&& match perfil {
        Some(p) => fila.1 == p.0 && fila.2 == p.1 && fila.3 == p.2,
        None => perfil_desconocido((fila.1, fila.2, fila.3)),
    }
}

/// The views of a profile that may be missing.
pub open spec fn vista_opcional(p: Option<Perfil>) -> Option<(Seq<char>, Seq<char>, Seq<char>)> {
    match p {
        Some(t) => Some(vista_perfil(t)),
        None => None,
    }
}

/// The profile shown for an account that has none.
pub fn perfil_vacio() -> (r: Perfil)
    ensures
        perfil_desconocido(vista_perfil(r)),
{
    (String::new(), String::new(), String::new())
}

/// Joins `id` with its profile; an account without one is shown with the unknown
/// profile, which is a display policy and not an error.
pub fn unir_perfil(id: AccountId, perfil: Option<Perfil>) -> (r: (AccountId, String, String, String))
    ensures
        fila_con_perfil((r.0, r.1@, r.2@, r.3@), id, vista_opcional(perfil)),
{
    let (nombre, apellido, dni) = match perfil {
        Some(p) => p,
        None => perfil_vacio(),
    };
    (id, nombre, apellido, dni)
}

fn copiar_perfil(p: &Option<Perfil>) -> (r: Option<Perfil>)
    ensures
        vista_opcional(r) == vista_opcional(*p),
{
    match p {
        Some(t) => Some((t.0.clone(), t.1.clone(), t.2.clone())),
        None => None,
    }
}

/// The rows of `filas` show the accounts of `ids` in order, the `k`-th with the
/// `k`-th profile of `perfiles`.
pub open spec fn filas_con_perfiles(
    filas: Seq<(AccountId, String, String, String)>,
    ids: Seq<AccountId>,
    perfiles: Seq<Option<(Seq<char>, Seq<char>, Seq<char>)>>,
) -> bool {
    &&& filas.len() == ids.len()
    &&& forall|k: int|
        0 <= k < filas.len() ==> fila_con_perfil(
            (#[trigger] filas[k].0, filas[k].1@, filas[k].2@, filas[k].3@),
            ids[k],
            perfiles[k],
        )
}

/// The ranking rows show the candidates of `orden` in order, the `k`-th with the
/// `k`-th profile of `perfiles` and with its tally.
pub open spec fn ranking_con_perfiles(
    filas: Seq<(AccountId, String, String, String, u32)>,
    orden: Seq<DatoCandidato>,
    perfiles: Seq<Option<(Seq<char>, Seq<char>, Seq<char>)>>,
) -> bool {
    &&& filas.len() == orden.len()
    &&& forall|k: int|
        0 <= k < filas.len() ==> {
            &&& fila_con_perfil(
                (#[trigger] filas[k].0, filas[k].1@, filas[k].2@, filas[k].3@),
                orden[k].0,
                perfiles[k],
            )
            &&& filas[k].4 == orden[k].1
        }
}

/// The voter report's rows: each voter with the profile fetched for it.
pub fn filas_de_votantes(votantes: &Vec<DatoVotante>, perfiles: &Vec<Option<Perfil>>) -> (r: Vec<
    (AccountId, String, String, String),
>)
    requires
        perfiles@.len() == votantes@.len(),
    ensures
        filas_con_perfiles(
            r@,
            votantes@.map_values(|x: DatoVotante| x.0),
            perfiles@.map_values(|p: Option<Perfil>| vista_opcional(p)),
        ),
{
    let ghost ids = votantes@.map_values(|x: DatoVotante| x.0);
    let ghost vistas = perfiles@.map_values(|p: Option<Perfil>| vista_opcional(p));
    let mut filas: Vec<(AccountId, String, String, String)> = Vec::new();
    let mut i: usize = 0;
    while i < votantes.len()
        invariant
            i <= votantes@.len(),
            perfiles@.len() == votantes@.len(),
            ids == votantes@.map_values(|x: DatoVotante| x.0),
            vistas == perfiles@.map_values(|p: Option<Perfil>| vista_opcional(p)),
            filas@.len() == i,
            forall|k: int|
                0 <= k < i ==> fila_con_perfil(
                    (#[trigger] filas@[k].0, filas@[k].1@, filas@[k].2@, filas@[k].3@),
                    ids[k],
                    vistas[k],
                ),
        decreases votantes@.len() - i,
    {
        let fila = unir_perfil(votantes[i].0, copiar_perfil(&perfiles[i]));
        filas.push(fila);
        i = i + 1;
    }
    filas
}

/// The result report's rows: each candidate of the ranking `orden` with the profile
/// fetched for it and its tally.
pub fn filas_de_resultado(orden: &Vec<DatoCandidato>, perfiles: &Vec<Option<Perfil>>) -> (r: Vec<
    (AccountId, String, String, String, u32),
>)
    requires
        perfiles@.len() == orden@.len(),
    ensures
        ranking_con_perfiles(r@, orden@, perfiles@.map_values(|p: Option<Perfil>| vista_opcional(p))),
{
    let ghost vistas = perfiles@.map_values(|p: Option<Perfil>| vista_opcional(p));
    let mut filas: Vec<(AccountId, String, String, String, u32)> = Vec::new();
    let mut i: usize = 0;
    while i < orden.len()
        invariant
            i <= orden@.len(),
            perfiles@.len() == orden@.len(),
            vistas == perfiles@.map_values(|p: Option<Perfil>| vista_opcional(p)),
            filas@.len() == i,
            forall|k: int|
                0 <= k < i ==> {
                    &&& fila_con_perfil(
                        (#[trigger] filas@[k].0, filas@[k].1@, filas@[k].2@, filas@[k].3@),
                        orden@[k].0,
                        vistas[k],
                    )
                    &&& filas@[k].4 == orden@[k].1
                },
        decreases orden@.len() - i,
    {
        let (id, votos) = orden[i];
        let f = unir_perfil(id, copiar_perfil(&perfiles[i]));
        filas.push((f.0, f.1, f.2, f.3, votos));
        i = i + 1;
    }
    filas
}

/// The winner of a ranking sorted by descending tally: its first entry, unless the
/// first two are tied or there is no entry.
pub fn elegir_ganador(ranking: &Vec<(AccountId, String, String, String, u32)>) -> (r: Option<
    (AccountId, String, String, String, u32),
>)
    ensures
        ranking@.len() == 0 ==> r is None,
        ranking@.len() >= 2 && ranking@[0].4 == ranking@[1].4 ==> r is None,
        ranking@.len() == 1 || (ranking@.len() >= 2 && ranking@[0].4 != ranking@[1].4) ==> (
        r matches Some(g) && {
            let t = ranking@[0];
            &&& g.0 == t.0
            &&& g.1@ == t.1@
            &&& g.2@ == t.2@
            &&& g.3@ == t.3@
            &&& g.4 == t.4
        }),
{
    if ranking.len() == 0 {
        return None;
    }
    if ranking.len() >= 2 && ranking[0].4 == ranking[1].4 {
        return None;
    }
    let t = &ranking[0];
    Some((t.0, t.1.clone(), t.2.clone(), t.3.clone(), t.4))
}

/// The reporting front: its administrator, and the election source that it reads,
/// once the administrator has set one.
pub struct Reporte<S> {
    pub administrador: AccountId,
    pub sistema_elecciones: Option<S>,
}

impl<S> Reporte<S> {
    /// A front administered by `llamador`, with no source yet.
    pub fn new(llamador: AccountId) -> (r: Self)
        ensures
            r.administrador == llamador,
            r.sistema_elecciones is None,
    {
        Reporte { administrador: llamador, sistema_elecciones: None }
    }

    /// Sets the election source that the reports read; administrator only.
    pub fn set_sistema_elecciones(&mut self, llamador: AccountId, sistema_elecciones: S) -> (r: Result<String, String>)
        ensures
            llamador != old(self).administrador ==> {
                &&& falla_con(r, ERRORES::NO_SOS_ADMINISTRADOR)
                &&& *final(self) == *old(self)
            },
            llamador == old(self).administrador ==> {
                &&& r matches Ok(m) && m@ == "Sistema elecciones guardado correctamente!"@
                &&& final(self).administrador == old(self).administrador
                &&& final(self).sistema_elecciones == Some(sistema_elecciones)
            },
    {
        if llamador != self.administrador {
            return ERRORES::NO_SOS_ADMINISTRADOR.como_error();
        }
        self.sistema_elecciones = Some(sistema_elecciones);
        Ok(String::from_str("Sistema elecciones guardado correctamente!"))
    }
}

} // verus!
