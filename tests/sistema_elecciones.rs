use sistema_elecciones::{
    AccountId, CandidatoConteo, Eleccion, Resultados, SistemaElecciones, Usuario, Votante,
    ERRORES, TIPO_DE_USUARIO,
};

// The accounts that the host's test environment hands out by default.
fn alice() -> AccountId {
    AccountId::from([0x01; 32])
}

fn bob() -> AccountId {
    AccountId::from([0x02; 32])
}

fn charlie() -> AccountId {
    AccountId::from([0x03; 32])
}

fn setup_eleccion() -> Eleccion {
    Eleccion {
        id: 1,
        candidatos: Vec::new(),
        votantes: Vec::new(),
        usuarios_rechazados: Vec::new(),
        usuarios_pendientes: Vec::new(),
        votacion_iniciada: false,
        fecha_inicio: 0,
        fecha_final: 0,
        resultados: None,
    }
}

fn crear_usuario(id: AccountId, nombre: &str, apellido: &str, dni: &str) -> Usuario {
    Usuario {
        id,
        nombre: nombre.to_string(),
        apellido: apellido.to_string(),
        dni: dni.to_string(),
    }
}

fn crear_trabajo_final(administrador: AccountId) -> SistemaElecciones {
    SistemaElecciones {
        administrador,
        generador_reportes: None,
        registro_activado: false,
        usuarios: Vec::new(),
        usuarios_pendientes: Vec::new(),
        usuarios_rechazados: Vec::new(),
        elecciones: Vec::new(),
    }
}

fn eleccion_vacia(id: u64, fecha_inicio: u64, fecha_final: u64) -> Eleccion {
    Eleccion {
        id,
        candidatos: vec![],
        votantes: vec![],
        usuarios_rechazados: vec![],
        usuarios_pendientes: vec![],
        votacion_iniciada: false,
        fecha_inicio,
        fecha_final,
        resultados: None,
    }
}

#[test]
fn test_no_es_administrador() {
    let error = ERRORES::NO_ES_ADMINISTRADOR;
    assert_eq!(error.to_string(), "No eres el administrador.");
}

#[test]
fn test_usuario_no_registrado() {
    let error = ERRORES::USUARIO_NO_REGISTRADO;
    assert_eq!(error.to_string(), "No estás registrado en el sistema. Espera a que te acepten en el mismo o realiza la solicitud.");
}

#[test]
fn test_error_usuario_no_registrado() {
    let error = ERRORES::USUARIO_NO_REGISTRADO;
    assert_eq!(error.to_string(), "No estás registrado en el sistema. Espera a que te acepten en el mismo o realiza la solicitud.");
}

#[test]
fn test_obtener_resultados_votacion() {
    let administrador: AccountId = AccountId::from([0x1; 32]);
    let ahora: u64 = 1675666400000;
    let mut contrato = SistemaElecciones::new(administrador);

    let _ = contrato.activar_registro(administrador);
    let _ = contrato.crear_eleccion_privado(
        administrador,
        "01-01-2023 12:00".to_string(),
        "31-01-2025 12:00".to_string(),
    );
    let _ = contrato.crear_eleccion_privado(
        administrador,
        "01-01-2023 12:00".to_string(),
        "31-01-2023 12:00".to_string(),
    );

    let eleccion = contrato.obtener_eleccion_por_id(1).unwrap();
    assert!(eleccion.obtener_resultados_votacion(1675666400000).is_none()); // the election has not ended

    let eleccion = contrato.obtener_eleccion_por_id(2).unwrap();
    let resultados = Resultados { votos_totales: 0, votos_candidatos: Vec::new(), votos_realizados: 0 };
    assert_eq!(eleccion.obtener_resultados_votacion(ahora), Some(resultados.clone())); // computed now
    assert_eq!(eleccion.obtener_resultados_votacion(ahora), Some(resultados.clone())); // handed out again
}

#[test]
fn test_desactivar_registro() {
    let mut contrato = SistemaElecciones::new(alice());
    let id_administrador = AccountId::from([1; 32]);
    contrato.administrador = id_administrador;

    let result = contrato.desactivar_registro(id_administrador);
    assert_eq!(result, Err("El registro ya está desactivado.".to_string()));
}

#[test]
fn test_obtener_resultados_privado_exito() {
    let mut contrato = SistemaElecciones::new(alice());
    let id_administrador = AccountId::from([1; 32]);
    let id_candidato_1 = AccountId::from([0x06; 32]);
    let id_candidato_2 = AccountId::from([0x06; 32]);
    let id_candidato_3 = AccountId::from([0x06; 32]);
    let id_candidato_4 = AccountId::from([0x06; 32]);

    let vector_votos_candidatos = vec![
        (id_candidato_1, 13),
        (id_candidato_4, 7),
        (id_candidato_2, 3),
        (id_candidato_3, 2),
    ];
    contrato.administrador = id_administrador;

    let mut eleccion = eleccion_vacia(1, 50, 100);
    eleccion.resultados = Some(Resultados {
        votos_totales: 30,
        votos_realizados: 25,
        votos_candidatos: vector_votos_candidatos,
    });
    contrato.elecciones.push(eleccion);

    let result_obtener = contrato.obtener_resultados_privado(705, 1);
    assert!(result_obtener.is_ok(), "Error al obtener los resultados de la elección");
}

#[test]
fn test_obtener_resultados_privado_fallo_eleccion_inexistente() {
    let mut contrato = SistemaElecciones::new(alice());
    contrato.administrador = AccountId::from([1; 32]);
    contrato.elecciones.push(eleccion_vacia(1, 0, 100));

    let result_obtener = contrato.obtener_resultados_privado(0, 10);
    assert!(result_obtener.is_err(), "Se esperaba un error al obtener los resultados de la elección (no se encontró elección)");
}

#[test]
fn test_obtener_resultados_privado_fallo_no_finalizo() {
    let mut contrato = SistemaElecciones::new(alice());
    contrato.administrador = AccountId::from([1; 32]);
    contrato.elecciones.push(eleccion_vacia(1, 50, 100));

    let result_obtener = contrato.obtener_resultados_privado(75, 1);
    assert!(result_obtener.is_err(), "Se esperaba un error al obtener el siguiente usuario pendiente en la elección (la eleccion no finalizo)");
}

#[test]
fn test_obtener_informacion_usuario_privado() {
    let generador_reportes = AccountId::from([0; 32]);
    let administrador = AccountId::from([1; 32]);
    let user_id = AccountId::from([2; 32]);
    let random_user = AccountId::from([12; 32]);
    let mut contrato = SistemaElecciones::new(administrador);
    assert!(contrato.asignar_generador_reportes(administrador, generador_reportes).is_ok());

    // Unknown user
    let resultado = contrato.obtener_informacion_usuario_privado(generador_reportes, user_id);
    assert!(resultado.is_none());

    let user = Usuario { id: user_id, nombre: "Joaquin".to_string(), apellido: "Fontana".to_string(), dni: "22222".to_string() };
    let nombre = user.nombre.clone();
    let apellido = user.apellido.clone();
    let dni = user.dni.clone();
    contrato.usuarios.push(user);

    // Neither the report generator nor the administrator
    assert!(contrato.obtener_informacion_usuario_privado(random_user, user_id).is_none());

    assert!(contrato.obtener_informacion_usuario_privado(administrador, user_id).is_some_and(|tupla| tupla.0 == nombre && tupla.1 == apellido && tupla.2 == dni));
    assert!(contrato.obtener_informacion_usuario_privado(generador_reportes, user_id).is_some_and(|tupla| tupla.0 == nombre && tupla.1 == apellido && tupla.2 == dni));
}

#[test]
fn test_obtener_votantes_eleccion_por_id_privado() {
    let administrador: AccountId = AccountId::from([0x1; 32]);
    let ahora: u64 = 1675666400000;
    let mut contrato = SistemaElecciones::new(administrador);

    let _ = contrato.activar_registro(administrador);
    let _ = contrato.crear_eleccion_privado(administrador, "01-01-2023 12:00".to_string(), "31-01-2025 12:00".to_string());
    let _ = contrato.crear_eleccion_privado(administrador, "01-01-2023 12:00".to_string(), "31-01-2023 12:00".to_string());

    assert!(contrato.obtener_votantes_eleccion_por_id_privado(administrador, ahora, 1).is_err());
    let _ = contrato.asignar_generador_reportes_privado(administrador, administrador);
    assert!(contrato.obtener_votantes_eleccion_por_id_privado(administrador, ahora, 1).is_err()); // not ended

    let err = contrato.obtener_votantes_eleccion_por_id_privado(administrador, ahora, 2); // ended
    assert!(err.is_ok());

    let err = contrato.obtener_votantes_eleccion_por_id_privado(administrador, ahora, 3); // no such election
    assert!(err.is_err());
}

#[test]
fn test_contiene_usuario_pendiente() {
    let mut eleccion = setup_eleccion();
    eleccion.usuarios_pendientes.push((alice(), TIPO_DE_USUARIO::VOTANTE));

    assert!(eleccion.contiene_usuario_pendiente(alice()));
    assert!(!eleccion.contiene_usuario_pendiente(bob()));
}

#[test]
fn test_existe_candidato() {
    let mut eleccion = setup_eleccion();
    eleccion.candidatos.push(CandidatoConteo { id: alice(), candidato_id: 1, votos_totales: 0 });

    assert!(eleccion.existe_candidato(1));
    assert!(!eleccion.existe_candidato(2));
}

#[test]
fn test_votar_candidato() {
    let mut eleccion = setup_eleccion();
    eleccion.candidatos.push(CandidatoConteo { id: alice(), candidato_id: 1, votos_totales: 0 });
    eleccion.votantes.push(Votante { id: bob(), voto_emitido: false });

    let result = eleccion.votar_candidato(bob(), 1);
    assert_eq!(result, Ok(String::from("Voto emitido exitosamente.")));
    assert!(eleccion.votantes[0].voto_emitido);
    assert_eq!(eleccion.candidatos[0].votos_totales, 1);
}

#[test]
fn test_procesar_siguiente_usuario_pendiente() {
    let mut eleccion = setup_eleccion();
    eleccion.usuarios_pendientes.push((alice(), TIPO_DE_USUARIO::VOTANTE));
    eleccion.usuarios_pendientes.push((bob(), TIPO_DE_USUARIO::CANDIDATO));

    let result = eleccion.procesar_siguiente_usuario_pendiente(true);
    assert_eq!(result, Ok(String::from("Usuario agregado exitosamente.")));
    assert_eq!(eleccion.votantes.len(), 1);
    assert_eq!(eleccion.candidatos.len(), 0);

    let result = eleccion.procesar_siguiente_usuario_pendiente(true);
    assert_eq!(result, Ok(String::from("Usuario agregado exitosamente.")));
    assert_eq!(eleccion.votantes.len(), 1);
    assert_eq!(eleccion.candidatos.len(), 1);

    let result = eleccion.procesar_siguiente_usuario_pendiente(false);
    assert_eq!(result, Err(String::from("No hay usuarios pendientes.")));
}

#[test]
fn test_obtener_informacion_candidato() {
    let administrador: AccountId = AccountId::from([0x1; 32]);
    let bob: AccountId = AccountId::from([0x2; 32]);
    let ahora: u64 = 0;
    let mut contrato = SistemaElecciones::new(administrador);

    let _ = contrato.activar_registro(administrador);
    let _ = contrato.crear_eleccion(administrador, String::from("01-07-2024 12:00"), String::from("31-12-2024 12:00"));
    let _ = contrato.registrarse(bob, String::from("Bob"), String::from("Bob"), String::from("Bob"));
    let _ = contrato.procesar_siguiente_usuario_pendiente(administrador, true);
    let _ = contrato.ingresar_a_eleccion_privado(bob, ahora, 1, TIPO_DE_USUARIO::CANDIDATO);
    let _ = contrato.procesar_usuarios_en_una_eleccion_privado(administrador, 1, true);

    let res = contrato.obtener_informacion_candidato_eleccion(1, 1);
    assert!(res.is_ok()); // the election and the candidate exist

    let res = contrato.obtener_informacion_candidato_eleccion(2, 1);
    assert!(res.is_err()); // no such election

    let res = contrato.obtener_informacion_candidato_eleccion(1, 2);
    assert!(res.is_err()); // no such candidate
}

#[test]
fn test_procesar_siguiente_usuario_pendiente_eleccion() {
    let mut eleccion = setup_eleccion();
    eleccion.usuarios_pendientes.push((alice(), TIPO_DE_USUARIO::VOTANTE));
    eleccion.usuarios_pendientes.push((bob(), TIPO_DE_USUARIO::CANDIDATO));

    let result = eleccion.procesar_siguiente_usuario_pendiente(true);
    assert_eq!(result, Ok(String::from("Usuario agregado exitosamente.")));
    assert_eq!(eleccion.votantes.len(), 1);
    assert_eq!(eleccion.candidatos.len(), 0);

    let result = eleccion.procesar_siguiente_usuario_pendiente(true);
    assert_eq!(result, Ok(String::from("Usuario agregado exitosamente.")));
    assert_eq!(eleccion.votantes.len(), 1);
    assert_eq!(eleccion.candidatos.len(), 1);

    let result = eleccion.procesar_siguiente_usuario_pendiente(false);
    assert_eq!(result, Err(String::from("No hay usuarios pendientes.")));
}

#[test]
fn test_votar_a_candidato_privado() {
    let alice = alice();
    let charlie = charlie();
    let bob = bob();
    let ahora: u64 = 0;

    let mut contrato = SistemaElecciones::new(alice);
    let nueva_eleccion = contrato.crear_eleccion_privado(alice, String::from("01-07-2024 12:00"), String::from("31-12-2024 12:00"));
    assert_eq!(nueva_eleccion, Ok(format!("Eleccion creada exitosamente. Id de la elección: 1")));
    let _ = contrato.activar_registro_privado(alice);

    // Users register
    let result = contrato.registrarse_privado(bob, "Bob".to_string(), "Asd".to_string(), "12345678".to_string());
    assert_eq!(result, Ok("Registro exitoso. Se te añadió en la cola de usuarios pendientes.".to_string()));
    let _ = contrato.registrarse_privado(charlie, "Charlie".to_string(), "Dsa".to_string(), "87654321".to_string());
    assert_eq!(result, Ok("Registro exitoso. Se te añadió en la cola de usuarios pendientes.".to_string()));

    // Alice accepts both
    let _ = contrato.procesar_siguiente_usuario_pendiente_privado(alice, true);
    let _ = contrato.procesar_siguiente_usuario_pendiente_privado(alice, true);

    // Both ask to join the election
    let _ = contrato.ingresar_a_eleccion_privado(bob, ahora, 1, TIPO_DE_USUARIO::CANDIDATO);
    let _ = contrato.ingresar_a_eleccion_privado(charlie, ahora, 1, TIPO_DE_USUARIO::VOTANTE);

    let result = contrato.procesar_usuarios_en_una_eleccion_privado(alice, 1, true);
    assert_eq!(result, Ok(String::from("Usuario agregado exitosamente.")));
    let result = contrato.procesar_usuarios_en_una_eleccion_privado(alice, 1, true);
    assert_eq!(result, Ok(String::from("Usuario agregado exitosamente.")));

    // A user who is not registered votes
    let result = contrato.votar_a_candidato_privado(alice, ahora, 1, 1);
    assert_eq!(result, Err(String::from("No estás registrado en el sistema. Espera a que te acepten en el mismo o realiza la solicitud.")));

    // Voting before the start
    let result = contrato.votar_a_candidato_privado(charlie, ahora, 1, 1);
    assert_eq!(result, Err(String::from("Todavía no es la fecha para la votación.")));

    contrato.elecciones[0].votacion_iniciada = true;
    // A candidate that does not exist
    let result = contrato.votar_a_candidato_privado(charlie, ahora, 1, 2);
    assert_eq!(result, Err(String::from("No existe un candidato con este id.")));

    // A valid vote
    let result = contrato.votar_a_candidato_privado(charlie, ahora, 1, 1);
    assert_eq!(result, Ok(String::from("Voto emitido exitosamente.")));

    // Voting twice
    let result = contrato.votar_a_candidato_privado(charlie, ahora, 1, 1);
    assert_eq!(result, Err("No se realizó el voto porque ya votaste anteriormente.".to_string()));

    // An election that does not exist
    let result = contrato.votar_a_candidato_privado(charlie, ahora, 7, 1);
    assert_eq!(result, Err(String::from("No existe una elección con ese id.")));

    // A user who is not a voter of the election
    let result = contrato.votar_a_candidato_privado(bob, ahora, 1, 1);
    assert_eq!(result, Err(String::from("No estás registrado en la elección.")));
}

#[test]
fn test_obtener_informacion_siguiente_usuario_pendiente_privado() {
    let alice = alice();
    let charlie = charlie();
    let bob = bob();

    let mut contrato = SistemaElecciones::new(alice);
    let _ = contrato.activar_registro_privado(alice);
    let result = contrato.obtener_informacion_siguiente_usuario_pendiente(alice);
    assert_eq!(result, Err(String::from("No hay usuarios pendientes.")));

    let _ = contrato.registrarse_privado(bob, "Bob".to_string(), "Asd".to_string(), "12345678".to_string());
    assert_eq!(contrato.usuarios_pendientes.len(), 1);

    let result = contrato.obtener_informacion_siguiente_usuario_pendiente(alice);
    let string_bob = "Nombre: Bob\nApellido: Asd\nDNI: 12345678".to_string();
    assert_eq!(result, Ok(string_bob));

    let _ = contrato.registrarse_privado(charlie, "Charlie".to_string(), "Asd".to_string(), "12345678".to_string());
    assert_eq!(contrato.usuarios_pendientes.len(), 2);

    // Accept Bob to see Charlie next
    let _ = contrato.procesar_siguiente_usuario_pendiente_privado(alice, true);

    let result = contrato.obtener_informacion_siguiente_usuario_pendiente(alice);
    let string_charlie = "Nombre: Charlie\nApellido: Asd\nDNI: 12345678".to_string();
    assert_eq!(result, Ok(string_charlie));

    // Accept everyone and ask again
    let _ = contrato.procesar_siguiente_usuario_pendiente_privado(alice, true);
    let result = contrato.obtener_informacion_siguiente_usuario_pendiente(alice);
    assert_eq!(result, Err(String::from("No hay usuarios pendientes.")));
}

#[test]
fn test_constructor() {
    let alice = alice();
    let charlie = charlie();

    let sistema_elecciones = SistemaElecciones::new(alice);
    assert_eq!(sistema_elecciones.registro_activado, false);
    assert_eq!(sistema_elecciones.administrador, alice);
    assert_ne!(sistema_elecciones.administrador, charlie);
}

#[test]
fn test_obtener_informacion_candidato_eleccion() {
    let mut eleccion = setup_eleccion();
    eleccion.candidatos.push(CandidatoConteo { id: alice(), candidato_id: 1, votos_totales: 0 });
    eleccion.candidatos.push(CandidatoConteo { id: bob(), candidato_id: 2, votos_totales: 0 });

    let candidato_info = eleccion.obtener_informacion_candidato(1);
    assert!(candidato_info.is_some());
    assert_eq!(candidato_info.unwrap().id, alice());

    let candidato_info = eleccion.obtener_informacion_candidato(2);
    assert!(candidato_info.is_some());
    assert_eq!(candidato_info.unwrap().id, bob());

    let candidato_info = eleccion.obtener_informacion_candidato(3);
    assert!(candidato_info.is_none());
}

#[test]
fn test_obtener_informacion_siguiente_usuario_pendiente() {
    let administrador: AccountId = AccountId::from([0x1; 32]);
    let otro_usuario: AccountId = AccountId::from([0x2; 32]);
    let mut contrato = SistemaElecciones::new(administrador);

    let usuario = Usuario { id: otro_usuario, nombre: "Joaquin".to_string(), apellido: "Fontana".to_string(), dni: "22222222".to_string() };
    let mut str = String::from("Nombre: ") + usuario.nombre.as_str();
    str.push_str((String::from("\nApellido: ") + usuario.apellido.as_str()).as_str());
    str.push_str((String::from("\nDNI: ") + usuario.dni.as_str()).as_str());
    // Nothing pending yet
    let result = contrato.obtener_informacion_siguiente_usuario_pendiente(administrador);
    assert!(result.is_err());

    contrato.usuarios_pendientes.push(usuario);

    let result = contrato.obtener_informacion_siguiente_usuario_pendiente(administrador);
    assert!(result.is_ok_and(|info| info == str));
}

#[test]
fn test_transferir_administrador() {
    let alice = alice();
    let charlie = charlie();
    let bob = bob();

    let mut sistema_elecciones = SistemaElecciones::new(alice);

    let result = sistema_elecciones.transferir_administrador_privado(alice, charlie);
    assert!(result.is_ok());
    assert_ne!(sistema_elecciones.administrador, alice);
    assert_eq!(sistema_elecciones.administrador, charlie);

    let result = sistema_elecciones.transferir_administrador_privado(bob, charlie);
    assert!(result.is_err());
    assert_ne!(sistema_elecciones.administrador, alice);
    assert_eq!(sistema_elecciones.administrador, charlie);
}

#[test]
fn test_obtener_candidatos_eleccion_por_id() {
    let administrador: AccountId = AccountId::from([0x1; 32]);
    let generador_reportes: AccountId = AccountId::from([0x2; 32]);
    let mut ahora: u64 = 0;
    let mut contrato = SistemaElecciones::new(administrador);
    assert!(contrato.asignar_generador_reportes(administrador, generador_reportes).is_ok());
    assert!(contrato.generador_reportes.is_some_and(|id| id == generador_reportes));
    let mut eleccion = setup_eleccion();
    let eleccion_id = eleccion.id;
    eleccion.fecha_final = ahora;
    contrato.elecciones.push(eleccion);
    ahora += 6; // the next block
    let resultado = contrato.obtener_candidatos_eleccion_por_id_privado(generador_reportes, ahora, eleccion_id);

    assert!(
        resultado.is_ok(),
        "Error al obtener candidatos para la elección: {:?}",
        resultado.unwrap_err().to_string()
    );
}

#[test]
fn test_obtener_usuario() {
    let id: AccountId = alice();
    let mut trabajo_final = SistemaElecciones::new(alice());
    let usuario = crear_usuario(id, "Juan", "Perez", "12345678");
    trabajo_final.usuarios.push(usuario);

    let result = trabajo_final.obtener_usuario(id);
    assert!(result.is_some());
    let user = result.unwrap();
    assert_eq!(user.nombre, "Juan");
    assert_eq!(user.apellido, "Perez");
    assert_eq!(user.dni, "12345678");
}

#[test]
fn test_es_usuario_registrado() {
    let id: AccountId = alice();
    let mut trabajo_final = SistemaElecciones::new(alice());
    let usuario = crear_usuario(id, "Juan", "Perez", "12345678");
    trabajo_final.usuarios.push(usuario);

    assert!(trabajo_final.es_usuario_registrado(alice()));
}

#[test]
fn test_es_usuario_pendiente() {
    let id: AccountId = alice();
    let mut trabajo_final = SistemaElecciones::new(alice());
    let usuario = crear_usuario(id, "Juan", "Perez", "12345678");
    trabajo_final.usuarios_pendientes.push(usuario);

    assert!(trabajo_final.es_usuario_pendiente(alice()));
}

#[test]
fn test_existe_eleccion() {
    let id: AccountId = [0; 32].into();
    let mut trabajo_final = crear_trabajo_final(id);
    let eleccion = setup_eleccion();
    trabajo_final.elecciones.push(eleccion);

    assert!(trabajo_final.existe_eleccion(1));
    assert!(!trabajo_final.existe_eleccion(2));
}

#[test]
fn test_obtener_eleccion_por_id() {
    let id: AccountId = [0; 32].into();
    let mut trabajo_final = crear_trabajo_final(id);
    let eleccion = setup_eleccion();
    trabajo_final.elecciones.push(eleccion);

    let result = trabajo_final.obtener_eleccion_por_id(1);
    assert!(result.is_some());
    let eleccion_obtenida = result.unwrap();
    assert_eq!(eleccion_obtenida.id, 1);

    assert!(trabajo_final.obtener_eleccion_por_id(2).is_none());
}

#[test]
fn test_activar_registro() {
    let mut contract = SistemaElecciones::new(alice());

    let res = contract.activar_registro_privado(alice());
    assert_eq!(res, Ok(String::from("Se activó el registro para los usuarios.")));
    assert_eq!(contract.registro_activado, true);

    let res = contract.activar_registro_privado(alice());
    assert_eq!(res, Err(String::from("El registro ya está activado.")));
}

#[test]
fn test_registro_usuario() {
    let administrador: AccountId = AccountId::from([0x1; 32]);
    let otro_usuario: AccountId = AccountId::from([0x2; 32]);

    let mut contrato = SistemaElecciones::new(administrador);
    contrato.activar_registro_privado(administrador).unwrap();

    let resultado = contrato.registrarse_privado(otro_usuario, "John".to_string(), "Doe".to_string(), "12345678".to_string());
    assert_eq!(resultado, Ok("Registro exitoso. Se te añadió en la cola de usuarios pendientes.".to_string()));
}

#[test]
fn test_obtener_ref_eleccion_por_id() {
    let mut contrato = SistemaElecciones::new(alice());

    let candidato1 = CandidatoConteo { id: AccountId::from([0x01; 32]), candidato_id: 1, votos_totales: 0 };
    let candidato2 = CandidatoConteo { id: AccountId::from([0x02; 32]), candidato_id: 2, votos_totales: 0 };
    let votante1 = Votante { id: AccountId::from([0x03; 32]), voto_emitido: false };
    let votante2 = Votante { id: AccountId::from([0x04; 32]), voto_emitido: false };

    let mut eleccion = eleccion_vacia(1, 0, 0);
    eleccion.candidatos = vec![candidato1];
    eleccion.votantes = vec![votante1];
    contrato.elecciones.push(eleccion);

    let mut eleccion = eleccion_vacia(2, 0, 0);
    eleccion.candidatos = vec![candidato2];
    eleccion.votantes = vec![votante2];
    contrato.elecciones.push(eleccion);

    let resultado = contrato.obtener_ref_eleccion_por_id(1);
    assert!(resultado.is_some());
    assert_eq!(resultado.unwrap(), &contrato.elecciones[0]);

    let resultado = contrato.obtener_ref_eleccion_por_id(2);
    assert!(resultado.is_some());
    assert_eq!(resultado.unwrap(), &contrato.elecciones[1]);

    let resultado = contrato.obtener_ref_eleccion_por_id(3);
    assert!(resultado.is_none());
}

#[test]
fn test_validar_estado_eleccion() {
    let mut contrato = SistemaElecciones::new(alice());
    let usuario_id = AccountId::from([0x01; 32]);

    let mut eleccion = eleccion_vacia(1, 100, 200);
    eleccion.usuarios_pendientes = vec![(usuario_id, TIPO_DE_USUARIO::VOTANTE)];
    contrato.elecciones.push(eleccion);

    let mut eleccion = eleccion_vacia(2, 100, 200);
    eleccion.votacion_iniciada = true;
    contrato.elecciones.push(eleccion);

    contrato.elecciones.push(eleccion_vacia(3, 100, 50));
    contrato.elecciones.push(eleccion_vacia(4, 150, 200));

    // Already waiting in the election
    let resultado = contrato.validar_estado_eleccion(1, 50, usuario_id);
    assert_eq!(resultado, Err(String::from("Ya está registrado en la elección.")));

    // Voting already started
    let resultado = contrato.validar_estado_eleccion(2, 50, usuario_id);
    assert_eq!(resultado, Err(String::from("La votación en la elección ya comenzó, no te puedes registrar.")));

    // The election already ended
    let resultado = contrato.validar_estado_eleccion(3, 52, usuario_id);
    assert_eq!(resultado, Err(String::from("La elección ya finalizó, no te puedes registrar.")));

    // A valid election that has not started
    let resultado = contrato.validar_estado_eleccion(4, 50, usuario_id);
    assert!(resultado.is_ok());
    let eleccion = resultado.unwrap();
    assert_eq!(eleccion.id, 4);
}

#[test]
fn test_crear_eleccion() {
    let mut contrato = SistemaElecciones::new(alice());
    let administrador = AccountId::from([0x1; 32]);
    contrato.administrador = administrador;

    let resultado = contrato.crear_eleccion_privado(administrador, "01-01-2025 12:00".to_string(), "31-01-2025 12:00".to_string());
    assert_eq!(resultado, Ok("Eleccion creada exitosamente. Id de la elección: 1".to_string()));

    assert_eq!(contrato.elecciones.len(), 1);
    let eleccion = &contrato.elecciones[0];
    assert_eq!(eleccion.id, 1);
    assert_eq!(eleccion.fecha_inicio, 1735732800000);
    assert_eq!(eleccion.fecha_final, 1738324800000);

    // An invalid end date
    let resultado = contrato.crear_eleccion_privado(administrador, "01-01-2025 12:00".to_string(), "invalid-date".to_string());
    assert_eq!(resultado, Err("Error en el formato de la fecha final. Formato: dd-mm-YYYY hh:mm".to_string()));

    // An invalid start date
    let resultado = contrato.crear_eleccion_privado(administrador, "invalid-date".to_string(), "31-01-2025 12:00".to_string());
    assert_eq!(resultado, Err("Error en el formato de la fecha inicial. Formato: dd-mm-YYYY hh:mm".to_string()));

    // Not the administrator
    contrato.administrador = AccountId::from([0x2; 32]);
    let resultado = contrato.crear_eleccion_privado(administrador, "01-01-2025 12:00".to_string(), "31-01-2025 12:00".to_string());
    assert_eq!(resultado, Err(ERRORES::NO_ES_ADMINISTRADOR.to_string()));
}

#[test]
fn test_procesar_usuarios_en_una_eleccion() {
    let mut contrato = SistemaElecciones::new(alice());

    contrato.crear_eleccion_privado(alice(), String::from("01-07-2024 12:00"), String::from("02-07-2024 12:00")).unwrap();

    contrato.elecciones[0].usuarios_pendientes.push((alice(), TIPO_DE_USUARIO::VOTANTE));
    contrato.elecciones[0].usuarios_pendientes.push((bob(), TIPO_DE_USUARIO::CANDIDATO));

    // Accept the next request
    let result = contrato.procesar_usuarios_en_una_eleccion(alice(), 1, true);
    assert_eq!(result, Ok(String::from("Usuario agregado exitosamente.")));

    // Accept the next request, a candidate
    let result = contrato.procesar_usuarios_en_una_eleccion(alice(), 1, true);
    assert_eq!(result, Ok(String::from("Usuario agregado exitosamente.")));

    // Nothing left to reject
    let result = contrato.procesar_usuarios_en_una_eleccion(alice(), 1, false);
    assert_eq!(result, Err(String::from("No hay usuarios pendientes.")));

    // An election that does not exist
    let result = contrato.procesar_usuarios_en_una_eleccion(alice(), 2, true);
    assert_eq!(result, Err(String::from("Eleccion no encontrada")));
}

#[test]
fn test_ingresar_a_eleccion() {
    let alice = alice();
    let charlie = charlie();
    let eleccion_id: u64 = 1;
    let tipo_usuario: TIPO_DE_USUARIO = TIPO_DE_USUARIO::VOTANTE;
    let ahora: u64 = 0;

    let mut contract = SistemaElecciones::new(alice);
    contract.activar_registro(alice).unwrap();
    contract.crear_eleccion(alice, "01-01-2024 10:00".into(), "02-01-2024 10:00".into()).unwrap();

    // A user who is not registered asks to join
    let result = contract.ingresar_a_eleccion_privado(charlie, ahora, eleccion_id, tipo_usuario.clone());
    assert_eq!(result, Err(ERRORES::USUARIO_NO_REGISTRADO.to_string()), "Error: Usuario no registrado");

    let result = contract.registrarse(charlie, "Juan".into(), "Perez".into(), "12345678".into()).unwrap();
    assert_eq!(result, String::from("Registro exitoso. Se te añadió en la cola de usuarios pendientes."));

    let result = contract.procesar_siguiente_usuario_pendiente(alice, true);
    assert_eq!(result, Ok(String::from("Usuario agregado exitosamente.")));

    // A registered user asks to join
    let result = contract.ingresar_a_eleccion_privado(charlie, ahora, eleccion_id, tipo_usuario.clone());
    assert_eq!(result, Ok(String::from("Ingresó a la elección correctamente Pendiente de aprobacion del Administrador")));

    contract.elecciones[0].usuarios_rechazados.clear();
    contract.elecciones[0].usuarios_pendientes.clear();
}

#[test]
fn test_iniciar_votacion_privado() {
    let mut contrato = SistemaElecciones::new(alice());
    contrato.elecciones.push(eleccion_vacia(1, 50, 150));

    // Not the administrator
    assert_eq!(contrato.iniciar_votacion_privado(bob(), 0, 1), Err(String::from("No eres el administrador.")));

    // No such election
    assert_eq!(contrato.iniciar_votacion_privado(alice(), 0, 2), Err(String::from("No existe una elección con ese id.")));

    // Voting already ended
    assert_eq!(contrato.iniciar_votacion_privado(alice(), 200, 1), Err(String::from("La votación ya finalizó.")));

    // Voting already started
    contrato.elecciones[0].votacion_iniciada = true;
    assert_eq!(contrato.iniciar_votacion_privado(alice(), 100, 1), Err(String::from("La votación ya inició.")));

    // Too early
    contrato.elecciones[0].votacion_iniciada = false;
    assert_eq!(contrato.iniciar_votacion_privado(alice(), 30, 1), Err(String::from("Todavía no es la fecha para la votación.")));

    // Started
    assert_eq!(contrato.iniciar_votacion_privado(alice(), 100, 1), Ok(String::from("Se inició la votación exitosamente.")));
    assert!(contrato.elecciones[0].votacion_iniciada);
}

#[test]
#[allow(non_snake_case)]
fn test_obtener_siguiente_usuario_pendiente_en_una_eleccion_privado_exito_VOTANTE() {
    let mut contrato = SistemaElecciones::new(alice());
    let id_administrador = AccountId::from([1; 32]);
    let id_usuario = AccountId::from([2; 32]);
    contrato.administrador = id_administrador;

    let mut eleccion = eleccion_vacia(1, 0, 100);
    eleccion.usuarios_pendientes = vec![(id_usuario, TIPO_DE_USUARIO::VOTANTE)];
    contrato.elecciones.push(eleccion);

    let result_obtener = contrato.obtener_siguiente_usuario_pendiente_en_una_eleccion_privado(alice(), 1);
    assert!(result_obtener.is_ok(), "Error al obtener el siguiente usuario pendiente en la elección");

    let result_obtener = contrato.obtener_siguiente_usuario_pendiente_en_una_eleccion_privado(alice(), 1);
    assert!(result_obtener.is_ok(), "Error al obtener el siguiente usuario pendiente en la elección");
}

#[test]
#[allow(non_snake_case)]
fn test_obtener_siguiente_usuario_pendiente_en_una_eleccion_privado_exito_CANDIDATO() {
    let mut contrato = SistemaElecciones::new(alice());
    let id_administrador = AccountId::from([1; 32]);
    let id_usuario = AccountId::from([2; 32]);
    contrato.administrador = id_administrador;

    let mut eleccion = eleccion_vacia(1, 0, 100);
    eleccion.usuarios_pendientes = vec![(id_usuario, TIPO_DE_USUARIO::CANDIDATO)];
    contrato.elecciones.push(eleccion);

    let result_obtener = contrato.obtener_siguiente_usuario_pendiente_en_una_eleccion_privado(alice(), 1);
    assert!(result_obtener.is_ok(), "Error al obtener el siguiente usuario pendiente en la elección");

    let result_obtener = contrato.obtener_siguiente_usuario_pendiente_en_una_eleccion_privado(alice(), 1);
    assert!(result_obtener.is_ok(), "Error al obtener el siguiente usuario pendiente en la elección");
}

#[test]
fn test_obtener_siguiente_usuario_pendiente_en_una_eleccion_privado_fallo_eleccion_inexistente() {
    let mut contrato = SistemaElecciones::new(alice());
    contrato.administrador = AccountId::from([1; 32]);
    let id_usuario = AccountId::from([2; 32]);

    let mut eleccion = eleccion_vacia(1, 0, 100);
    eleccion.usuarios_pendientes = vec![(id_usuario, TIPO_DE_USUARIO::VOTANTE)];
    contrato.elecciones.push(eleccion);

    let result_obtener = contrato.obtener_siguiente_usuario_pendiente_en_una_eleccion_privado(alice(), 10);
    assert!(result_obtener.is_err(), "Se esperaba un error al obtener el siguiente usuario pendiente en la elección (no se encontró elección)");
}

#[test]
fn test_obtener_siguiente_usuario_pendiente_en_una_eleccion_privado_fallo_sin_usuarios_pendientes() {
    let mut contrato = SistemaElecciones::new(alice());
    contrato.administrador = AccountId::from([1; 32]);
    contrato.elecciones.push(eleccion_vacia(1, 0, 100));

    let result_obtener = contrato.obtener_siguiente_usuario_pendiente_en_una_eleccion_privado(alice(), 1);
    assert!(result_obtener.is_err(), "Se esperaba un error al obtener el siguiente usuario pendiente en la elección (ningún usuario pendiente)");
}
