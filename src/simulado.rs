use vstd::prelude::*;
use vstd::string::StringExecFns;

use crate::cuenta::AccountId;
use crate::mensajes::{falla_con, ERRORES};
use crate::reporte::{
    division_hacia_arriba, elegir_ganador, filas_con_perfiles, filas_de_resultado,
    filas_de_votantes, ordenado_por_votos, ordenar_por_votos, participacion, ranking_con_perfiles,
    vista_opcional, votos_efectivos, DatoCandidato, DatoVotante, Perfil,
};

verus! {

/// The account whose 32 bytes all equal `b`.
pub open spec fn cuenta_uniforme(b: u8) -> AccountId {
    AccountId(vstd::array::spec_array_fill_for_copy_type::<u8, 32>(b))
}

/// A fixed election source: three elections and twelve profiles, for exercising
/// the reports without a running system.
pub struct SistemaEleccionesFake;

/// The voters that the fixed source holds for election `id`.
pub open spec fn votantes_de_prueba(id: u32) -> Option<Seq<DatoVotante>> {
    if id == 1 {
        Some(seq![
            (cuenta_uniforme(0x08), true), (cuenta_uniforme(0x01), true),
            (cuenta_uniforme(0x05), false), (cuenta_uniforme(0x07), false),
            (cuenta_uniforme(0x03), true), (cuenta_uniforme(0x09), true),
            (cuenta_uniforme(0x02), true),
        ])
    } else if id == 2 {
        Some(seq![
            (cuenta_uniforme(0x08), true), (cuenta_uniforme(0x07), true),
            (cuenta_uniforme(0x09), false), (cuenta_uniforme(0x02), true),
            (cuenta_uniforme(0x06), true), (cuenta_uniforme(0x05), true),
            (cuenta_uniforme(0x03), true), (cuenta_uniforme(0x04), true),
            (cuenta_uniforme(0x01), true),
        ])
    } else if id == 3 {
        Some(seq![
            (cuenta_uniforme(0x01), true), (cuenta_uniforme(0x08), true),
            (cuenta_uniforme(0x02), false), (cuenta_uniforme(0x06), true),
            (cuenta_uniforme(0x04), true),
        ])
    } else {
        None
    }
}

/// The candidates that the fixed source holds for election `id`.
pub open spec fn candidatos_de_prueba(id: u32) -> Option<Seq<DatoCandidato>> {
    if id == 1 {
        Some(seq![(cuenta_uniforme(0x0A), 2u32), (cuenta_uniforme(0x0C), 3u32)])
    } else if id == 2 {
        Some(seq![
            (cuenta_uniforme(0x0B), 1u32), (cuenta_uniforme(0x0A), 5u32),
            (cuenta_uniforme(0x0C), 2u32),
        ])
    } else if id == 3 {
        Some(seq![(cuenta_uniforme(0x0A), 2u32), (cuenta_uniforme(0x0C), 2u32)])
    } else {
        None
    }
}

/// The profile that the fixed source holds for `id`.
pub open spec fn perfil_de_prueba(id: AccountId) -> Option<(Seq<char>, Seq<char>, Seq<char>)> {
    if id == cuenta_uniforme(0x01) {
        Some(("Alice"@, "Wonderland"@, "54326961"@))
    } else if id == cuenta_uniforme(0x02) {
        Some(("Bob"@, "Builder"@, "64128970"@))
    } else if id == cuenta_uniforme(0x03) {
        Some(("Carlos"@, "Caceres"@, "54326961"@))
    } else if id == cuenta_uniforme(0x04) {
        Some(("Ana"@, "Martínez"@, "45678901"@))
    } else if id == cuenta_uniforme(0x05) {
        Some(("Luis"@, "Sánchez"@, "56789012"@))
    } else if id == cuenta_uniforme(0x06) {
        Some(("Elena"@, "Rodríguez"@, "67890123"@))
    } else if id == cuenta_uniforme(0x07) {
        Some(("Pedro"@, "Fernández"@, "78901234"@))
    } else if id == cuenta_uniforme(0x08) {
        Some(("Juan"@, "Pérez"@, "12345678"@))
    } else if id == cuenta_uniforme(0x09) {
        Some(("María"@, "González"@, "23456789"@))
    } else if id == cuenta_uniforme(0x0A) {
        Some(("Carlos"@, "Gómez"@, "34567890"@))
    } else if id == cuenta_uniforme(0x0B) {
        Some(("Ricardo"@, "Palacios"@, "24218796"@))
    } else if id == cuenta_uniforme(0x0C) {
        Some(("Tomas"@, "Lopez"@, "78921353"@))
    } else {
        None
    }
}

fn perfil(nombre: &str, apellido: &str, dni: &str) -> (r: Option<Perfil>)
    ensures
        vista_opcional(r) == Some((nombre@, apellido@, dni@)),
{
    Some((String::from_str(nombre), String::from_str(apellido), String::from_str(dni)))
}

impl SistemaEleccionesFake {
    pub fn obtener_votantes_eleccion_por_id(&self, id_eleccion: u32) -> (r: Result<Vec<DatoVotante>, String>)
        ensures
            match votantes_de_prueba(id_eleccion) {
                Some(v) => r matches Ok(x) && x@ == v,
                None => falla_con(r, ERRORES::ELECCION_NO_EXISTE),
            },
    {
        let r = if id_eleccion == 1 {
            Ok(vec![
                (AccountId([0x08u8; 32]), true), (AccountId([0x01u8; 32]), true),
                (AccountId([0x05u8; 32]), false), (AccountId([0x07u8; 32]), false),
                (AccountId([0x03u8; 32]), true), (AccountId([0x09u8; 32]), true),
                (AccountId([0x02u8; 32]), true),
            ])
        } else if id_eleccion == 2 {
            Ok(vec![
                (AccountId([0x08u8; 32]), true), (AccountId([0x07u8; 32]), true),
                (AccountId([0x09u8; 32]), false), (AccountId([0x02u8; 32]), true),
                (AccountId([0x06u8; 32]), true), (AccountId([0x05u8; 32]), true),
                (AccountId([0x03u8; 32]), true), (AccountId([0x04u8; 32]), true),
                (AccountId([0x01u8; 32]), true),
            ])
        } else if id_eleccion == 3 {
            Ok(vec![
                (AccountId([0x01u8; 32]), true), (AccountId([0x08u8; 32]), true),
                (AccountId([0x02u8; 32]), false), (AccountId([0x06u8; 32]), true),
                (AccountId([0x04u8; 32]), true),
            ])
        } else {
            ERRORES::ELECCION_NO_EXISTE.como_error()
        };
        proof {
            if r is Ok {
                assert(r->Ok_0@ =~= votantes_de_prueba(id_eleccion)->Some_0);
            }
        }
        r
    }

    pub fn obtener_candidatos_eleccion_por_id(&self, id_eleccion: u32) -> (r: Result<Vec<DatoCandidato>, String>)
        ensures
            match candidatos_de_prueba(id_eleccion) {
                Some(c) => r matches Ok(x) && x@ == c,
                None => falla_con(r, ERRORES::ELECCION_NO_EXISTE),
            },
    {
        let r = if id_eleccion == 1 {
            Ok(vec![(AccountId([0x0Au8; 32]), 2u32), (AccountId([0x0Cu8; 32]), 3u32)])
        } else if id_eleccion == 2 {
            Ok(vec![
                (AccountId([0x0Bu8; 32]), 1u32), (AccountId([0x0Au8; 32]), 5u32),
                (AccountId([0x0Cu8; 32]), 2u32),
            ])
        } else if id_eleccion == 3 {
            Ok(vec![(AccountId([0x0Au8; 32]), 2u32), (AccountId([0x0Cu8; 32]), 2u32)])
        } else {
            ERRORES::ELECCION_NO_EXISTE.como_error()
        };
        proof {
            if r is Ok {
                assert(r->Ok_0@ =~= candidatos_de_prueba(id_eleccion)->Some_0);
            }
        }
        r
    }

    pub fn obtener_informacion_usuario(&self, id_usuario: AccountId) -> (r: Option<Perfil>)
        ensures
            vista_opcional(r) == perfil_de_prueba(id_usuario),
    {
        if id_usuario == AccountId([0x01u8; 32]) {
            perfil("Alice", "Wonderland", "54326961")
        } else if id_usuario == AccountId([0x02u8; 32]) {
            perfil("Bob", "Builder", "64128970")
        } else if id_usuario == AccountId([0x03u8; 32]) {
            perfil("Carlos", "Caceres", "54326961")
        } else if id_usuario == AccountId([0x04u8; 32]) {
            perfil("Ana", "Martínez", "45678901")
        } else if id_usuario == AccountId([0x05u8; 32]) {
            perfil("Luis", "Sánchez", "56789012")
        } else if id_usuario == AccountId([0x06u8; 32]) {
            perfil("Elena", "Rodríguez", "67890123")
        } else if id_usuario == AccountId([0x07u8; 32]) {
            perfil("Pedro", "Fernández", "78901234")
        } else if id_usuario == AccountId([0x08u8; 32]) {
            perfil("Juan", "Pérez", "12345678")
        } else if id_usuario == AccountId([0x09u8; 32]) {
            perfil("María", "González", "23456789")
        } else if id_usuario == AccountId([0x0Au8; 32]) {
            perfil("Carlos", "Gómez", "34567890")
        } else if id_usuario == AccountId([0x0Bu8; 32]) {
            perfil("Ricardo", "Palacios", "24218796")
        } else if id_usuario == AccountId([0x0Cu8; 32]) {
            perfil("Tomas", "Lopez", "78921353")
        } else {
            None
        }
    }
}

/// The reports, computed over the fixed election source.
pub struct ReporteFake {
    pub sistema_elecciones: Option<SistemaEleccionesFake>,
}

/// The rows of `filas` show the accounts of `ids` in order, each with its fixed profile.
pub open spec fn filas_de_prueba(filas: Seq<(AccountId, String, String, String)>, ids: Seq<AccountId>) -> bool {
    filas_con_perfiles(filas, ids, ids.map_values(|id: AccountId| perfil_de_prueba(id)))
}

/// The ranking rows show `orden` in order, each with its fixed profile and tally.
pub open spec fn ranking_de_prueba(
    filas: Seq<(AccountId, String, String, String, u32)>,
    orden: Seq<DatoCandidato>,
) -> bool {
    ranking_con_perfiles(filas, orden, orden.map_values(|c: DatoCandidato| perfil_de_prueba(c.0)))
}

impl SistemaEleccionesFake {
    /// The candidates ranked by descending tally, each with its fixed profile.
    fn clasificacion(&self, candidatos: &Vec<DatoCandidato>) -> (filas: Vec<(AccountId, String, String, String, u32)>)
        ensures
            exists|orden: Seq<DatoCandidato>|
                ordenado_por_votos(candidatos@, orden) && #[trigger] ranking_de_prueba(filas@, orden),
    {
        let orden = ordenar_por_votos(&candidatos);
        let mut ids: Vec<AccountId> = Vec::new();
        let mut i: usize = 0;
        while i < orden.len()
            invariant
                i <= orden@.len(),
                ids@ == orden@.subrange(0, i as int).map_values(|c: DatoCandidato| c.0),
            decreases orden@.len() - i,
        {
            ids.push(orden[i].0);
            i = i + 1;
            assert(ids@ =~= orden@.subrange(0, i as int).map_values(|c: DatoCandidato| c.0));
        }
        assert(orden@.subrange(0, i as int) =~= orden@);
        assert(ids@ == orden@.map_values(|c: DatoCandidato| c.0));
        let perfiles = self.perfiles_de(&ids);
        let filas = filas_de_resultado(&orden, &perfiles);
        assert(perfiles@.map_values(|p: Option<Perfil>| vista_opcional(p)) =~= orden@.map_values(
            |c: DatoCandidato| perfil_de_prueba(c.0),
        )) by {
            let vistas = perfiles@.map_values(|p: Option<Perfil>| vista_opcional(p));
            assert forall|k: int| 0 <= k < orden@.len() implies #[trigger] vistas[k] == perfil_de_prueba(
                orden@[k].0,
            ) by {
                assert(ids@[k] == orden@[k].0);
                assert(vistas[k] == ids@.map_values(|id: AccountId| perfil_de_prueba(id))[k]);
            }
        }
        assert(ranking_de_prueba(filas@, orden@));
        filas
    }

    /// The fixed profile of each account of `cuentas`, in order.
    fn perfiles_de(&self, ids: &Vec<AccountId>) -> (r: Vec<Option<Perfil>>)
        ensures
            r@.len() == ids@.len(),
            r@.map_values(|p: Option<Perfil>| vista_opcional(p)) == ids@.map_values(
                |id: AccountId| perfil_de_prueba(id),
            ),
    {
        let mut r: Vec<Option<Perfil>> = Vec::new();
        let mut i: usize = 0;
        while i < ids.len()
            invariant
                i <= ids@.len(),
                r@.len() == i,
                forall|k: int| 0 <= k < i ==> vista_opcional(#[trigger] r@[k]) == perfil_de_prueba(ids@[k]),
            decreases ids@.len() - i,
        {
            r.push(self.obtener_informacion_usuario(ids[i]));
            i = i + 1;
        }
        assert(r@.map_values(|p: Option<Perfil>| vista_opcional(p)) =~= ids@.map_values(
            |id: AccountId| perfil_de_prueba(id),
        ));
        r
    }
}

impl ReporteFake {
    pub fn new(sistema_elecciones: SistemaEleccionesFake) -> (r: Self)
        ensures
            r.sistema_elecciones is Some,
    {
        ReporteFake { sistema_elecciones: Some(sistema_elecciones) }
    }

    pub fn new_vacio() -> (r: Self)
        ensures
            r.sistema_elecciones is None,
    {
        ReporteFake { sistema_elecciones: None }
    }

    /// Each voter of election `id_eleccion` with its profile.
    pub fn reporte_de_votantes_por_eleccion(&mut self, id_eleccion: u32) -> (r: Result<
        Vec<(AccountId, String, String, String)>,
        String,
    >)
        ensures
            old(self).sistema_elecciones is None ==> falla_con(r, ERRORES::SIN_SISTEMA_ELECCIONES),
            old(self).sistema_elecciones is Some ==> match votantes_de_prueba(id_eleccion) {
                None => falla_con(r, ERRORES::ELECCION_NO_EXISTE),
                Some(v) => r matches Ok(filas) && filas_de_prueba(
                    filas@,
                    v.map_values(|x: DatoVotante| x.0),
                ),
            },
    {
        let sistema = match &self.sistema_elecciones {
            None => return ERRORES::SIN_SISTEMA_ELECCIONES.como_error(),
            Some(s) => s,
        };
        let votantes = match sistema.obtener_votantes_eleccion_por_id(id_eleccion) {
            Err(m) => return Err(m),
            Ok(v) => v,
        };
        let mut ids: Vec<AccountId> = Vec::new();
        let mut i: usize = 0;
        while i < votantes.len()
            invariant
                i <= votantes@.len(),
                ids@ == votantes@.subrange(0, i as int).map_values(|x: DatoVotante| x.0),
            decreases votantes@.len() - i,
        {
            ids.push(votantes[i].0);
            i = i + 1;
            assert(ids@ =~= votantes@.subrange(0, i as int).map_values(|x: DatoVotante| x.0));
        }
        assert(votantes@.subrange(0, i as int) =~= votantes@);
        assert(ids@ == votantes@.map_values(|x: DatoVotante| x.0));
        let perfiles = sistema.perfiles_de(&ids);
        let filas = filas_de_votantes(&votantes, &perfiles);
        assert(filas_de_prueba(filas@, votantes@.map_values(|x: DatoVotante| x.0)));
        Ok(filas)
    }

    /// How many voters of election `id_eleccion` voted, and the rounded-up percentage.
    pub fn reporte_de_participacion_por_eleccion(&mut self, id_eleccion: u32) -> (r: Result<(u32, u32), String>)
        ensures
            old(self).sistema_elecciones is None ==> falla_con(r, ERRORES::SIN_SISTEMA_ELECCIONES),
            old(self).sistema_elecciones is Some ==> match votantes_de_prueba(id_eleccion) {
                None => falla_con(r, ERRORES::ELECCION_NO_EXISTE),
                Some(v) => r matches Ok((efectivos, porcentaje)) && {
                    &&& efectivos == votos_efectivos(v)
                    &&& porcentaje == division_hacia_arriba(efectivos as nat * 100, v.len())
                },
            },
    {
        let sistema = match &self.sistema_elecciones {
            None => return ERRORES::SIN_SISTEMA_ELECCIONES.como_error(),
            Some(s) => s,
        };
        let votantes = match sistema.obtener_votantes_eleccion_por_id(id_eleccion) {
            Err(m) => return Err(m),
            Ok(v) => v,
        };
        participacion(&votantes)
    }

    /// The candidates of election `id_eleccion` ranked by descending tally (ties in
    /// the order in which the source lists them) with their profiles, and the winner unless the first two
    /// are tied.
    pub fn reporte_de_resultado_por_eleccion(&mut self, id_eleccion: u32) -> (r: Result<
        (
            Option<(AccountId, String, String, String, u32)>,
            Vec<(AccountId, String, String, String, u32)>,
        ),
        String,
    >)
        ensures
            old(self).sistema_elecciones is None ==> falla_con(r, ERRORES::SIN_SISTEMA_ELECCIONES),
            old(self).sistema_elecciones is Some ==> match candidatos_de_prueba(id_eleccion) {
                None => falla_con(r, ERRORES::ELECCION_NO_EXISTE),
                Some(c) => r matches Ok((ganador, filas)) && {
                    &&& exists|orden: Seq<DatoCandidato>|
                        ordenado_por_votos(c, orden) && #[trigger] ranking_de_prueba(filas@, orden)
                    &&& filas@.len() == 0 ==> ganador is None
                    &&& filas@.len() >= 2 && filas@[0].4 == filas@[1].4 ==> ganador is None
                    &&& filas@.len() == 1 || (filas@.len() >= 2 && filas@[0].4 != filas@[1].4) ==> (
                    ganador matches Some(g) && g.0 == filas@[0].0 && g.1@ == filas@[0].1@
                        && g.2@ == filas@[0].2@ && g.3@ == filas@[0].3@ && g.4 == filas@[0].4)
                },
            },
    {
        let sistema = match &self.sistema_elecciones {
            None => return ERRORES::SIN_SISTEMA_ELECCIONES.como_error(),
            Some(s) => s,
        };
        let candidatos = match sistema.obtener_candidatos_eleccion_por_id(id_eleccion) {
            Err(m) => return Err(m),
            Ok(c) => c,
        };
        let filas = sistema.clasificacion(&candidatos);
        let ganador = elegir_ganador(&filas);
        Ok((ganador, filas))
    }
}

} // verus!
