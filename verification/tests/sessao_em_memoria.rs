use securechat::address::PapelNoise;
use securechat::framing::{codificar_tamanho, decodificar_tamanho};
use securechat::noise_lab::CanalNoise;
use securechat::tcp_handshake::{HandshakeXX, PassoXX};
use securechat::verification::{EstadoSessao, EventoRemoto, MotivoClose, SessaoVerificacao};

/// Frame completo (prefixo u32 big-endian e corpo), como escrito na conexão.
fn enquadrar(body: &[u8]) -> Vec<u8> {
    let mut frame = codificar_tamanho(body.len()).expect("tamanho válido").to_vec();
    frame.extend_from_slice(body);
    frame
}

/// Lê um frame completo do início do fluxo de bytes.
fn desenquadrar(fluxo: &[u8]) -> Vec<u8> {
    let prefixo: [u8; 4] = fluxo[..4].try_into().unwrap();
    let tamanho = decodificar_tamanho(prefixo).expect("prefixo válido");
    assert_eq!(fluxo.len(), 4 + tamanho);
    fluxo[4..].to_vec()
}

fn trocar_frame(body: &[u8]) -> Vec<u8> {
    desenquadrar(&enquadrar(body))
}

fn par_handshake() -> (CanalNoise, CanalNoise) {
    let mut initiator = HandshakeXX::novo(PapelNoise::Initiator).expect("initiator");
    let mut responder = HandshakeXX::novo(PapelNoise::Responder).expect("responder");
    loop {
        match (initiator.passo(), responder.passo()) {
            (PassoXX::Enviar, PassoXX::Receber) => {
                let mensagem = initiator.escrever_proxima().expect("escrever");
                responder.ler_proxima(&trocar_frame(&mensagem)).expect("ler");
            }
            (PassoXX::Receber, PassoXX::Enviar) => {
                let mensagem = responder.escrever_proxima().expect("escrever");
                initiator.ler_proxima(&trocar_frame(&mensagem)).expect("ler");
            }
            (PassoXX::Concluido, PassoXX::Concluido) => break,
            _ => panic!("papéis fora de sincronia"),
        }
    }
    (
        initiator.concluir().expect("canal initiator"),
        responder.concluir().expect("canal responder"),
    )
}

fn par_verified() -> (SessaoVerificacao, SessaoVerificacao) {
    let (canal_alice, canal_bob) = par_handshake();
    let mut alice = SessaoVerificacao::new(canal_alice);
    let mut bob = SessaoVerificacao::new(canal_bob);

    let de_alice = alice.confirmar_localmente().expect("confirmação Alice");
    bob.processar_ciphertext(&trocar_frame(&de_alice)).expect("Bob confirma");
    let de_bob = bob.confirmar_localmente().expect("confirmação Bob");
    alice.processar_ciphertext(&trocar_frame(&de_bob)).expect("Alice confirma");

    assert_eq!(alice.estado(), EstadoSessao::Verified);
    assert_eq!(bob.estado(), EstadoSessao::Verified);
    (alice, bob)
}

#[test]
fn confirmacao_honesta_via_tcp_leva_ambos_a_verified_sem_chat() {
    let (canal_alice, canal_bob) = par_handshake();
    let mut alice = SessaoVerificacao::new(canal_alice);
    let mut bob = SessaoVerificacao::new(canal_bob);

    let confirmacao_alice = alice.confirmar_localmente().expect("confirmação Alice");
    let recebida = trocar_frame(&confirmacao_alice);
    assert!(matches!(
        bob.processar_ciphertext(&recebida).expect("Bob processa"),
        EventoRemoto::VerifyConfirmed
    ));
    assert_eq!(bob.estado(), EstadoSessao::Unverified);

    let confirmacao_bob = bob.confirmar_localmente().expect("confirmação Bob");
    let recebida = trocar_frame(&confirmacao_bob);
    assert!(matches!(
        alice
            .processar_ciphertext(&recebida)
            .expect("Alice processa"),
        EventoRemoto::VerifyConfirmed
    ));

    assert_eq!(alice.estado(), EstadoSessao::Verified);
    assert_eq!(bob.estado(), EstadoSessao::Verified);
    assert_eq!(confirmacao_alice.len(), 17);
    assert_eq!(confirmacao_bob.len(), 17);
}

#[test]
fn confirmacao_remota_via_tcp_nao_substitui_decisao_local() {
    let (canal_alice, canal_bob) = par_handshake();
    let mut alice = SessaoVerificacao::new(canal_alice);
    let mut bob = SessaoVerificacao::new(canal_bob);

    let confirmacao_bob = bob.confirmar_localmente().expect("confirmação Bob");
    let recebida = trocar_frame(&confirmacao_bob);
    alice
        .processar_ciphertext(&recebida)
        .expect("Alice processa");

    assert!(alice.peer_confirmed());
    assert!(!alice.local_confirmed());
    assert_eq!(alice.estado(), EstadoSessao::Unverified);
}

#[test]
fn close_autenticado_via_tcp_recebe_resposta_reciproca() {
    let (canal_alice, canal_bob) = par_handshake();
    let mut alice = SessaoVerificacao::new(canal_alice);
    let mut bob = SessaoVerificacao::new(canal_bob);

    let close = alice
        .iniciar_close(MotivoClose::VerificationAborted)
        .expect("CLOSE Alice");
    let recebido = trocar_frame(&close);
    let resposta = match bob.processar_ciphertext(&recebido).expect("CLOSE Bob") {
        EventoRemoto::Close { motivo, resposta } => {
            assert_eq!(motivo, MotivoClose::VerificationAborted);
            resposta.expect("resposta recíproca")
        }
        EventoRemoto::VerifyConfirmed | EventoRemoto::Chat(_) => panic!("controle inesperado"),
    };
    let recebida = trocar_frame(&resposta);
    assert!(matches!(
        alice
            .processar_ciphertext(&recebida)
            .expect("resposta Alice"),
        EventoRemoto::Close {
            motivo: MotivoClose::VerificationAborted,
            resposta: None
        }
    ));
    alice.concluir_close_recebido();
    bob.concluir_close_recebido();
    assert_eq!(alice.estado(), EstadoSessao::Closed);
    assert_eq!(bob.estado(), EstadoSessao::Closed);
}

#[test]
fn chat_tcp_bidirecional_e_multiplas_mensagens_preservam_ordem() {
    let (mut alice, mut bob) = par_verified();

    for esperada in ["alice-1", "alice-2", "alice-3"] {
        let ciphertext = alice.enviar_chat(esperada).expect("CHAT Alice");
        let recebido = trocar_frame(&ciphertext);
        assert!(matches!(
            bob.processar_ciphertext(&recebido).expect("CHAT em Bob"),
            EventoRemoto::Chat(conteudo) if conteudo == esperada
        ));
    }

    for esperada in ["bob-1", "bob-2"] {
        let ciphertext = bob.enviar_chat(esperada).expect("CHAT Bob");
        let recebido = trocar_frame(&ciphertext);
        assert!(matches!(
            alice
                .processar_ciphertext(&recebido)
                .expect("CHAT em Alice"),
            EventoRemoto::Chat(conteudo) if conteudo == esperada
        ));
    }
}

#[test]
fn close_normal_durante_conversa_e_autenticado_e_reciproco() {
    let (mut alice, mut bob) = par_verified();
    let mensagem = alice.enviar_chat("antes do encerramento").unwrap();
    let recebida = trocar_frame(&mensagem);
    assert!(matches!(
        bob.processar_ciphertext(&recebida).unwrap(),
        EventoRemoto::Chat(_)
    ));

    let close = alice.iniciar_close(MotivoClose::Normal).unwrap();
    let recebido = trocar_frame(&close);
    let resposta = match bob.processar_ciphertext(&recebido).unwrap() {
        EventoRemoto::Close {
            motivo: MotivoClose::Normal,
            resposta: Some(resposta),
        } => resposta,
        _ => panic!("CLOSE NORMAL esperado"),
    };
    let recebido = trocar_frame(&resposta);
    assert!(matches!(
        alice.processar_ciphertext(&recebido).unwrap(),
        EventoRemoto::Close {
            motivo: MotivoClose::Normal,
            resposta: None
        }
    ));
}

#[test]
fn close_remoto_impede_envio_de_entrada_local_pendente() {
    let (mut alice, mut bob) = par_verified();

    let close = alice.iniciar_close(MotivoClose::Normal).unwrap();
    let recebido = trocar_frame(&close);
    assert!(matches!(
        bob.processar_ciphertext(&recebido).unwrap(),
        EventoRemoto::Close {
            motivo: MotivoClose::Normal,
            ..
        }
    ));
    assert_eq!(bob.estado(), EstadoSessao::Closing);
    assert!(bob.enviar_chat("entrada local pendente").is_err());
}

#[test]
fn handshake_em_memoria_produz_channel_binding_e_fingerprint_iguais() {
    let (initiator, responder) = par_handshake();
    assert_eq!(initiator.handshake_hash().len(), 32);
    assert_eq!(initiator.handshake_hash(), responder.handshake_hash());
    assert_eq!(initiator.fingerprint(), responder.fingerprint());
    assert!(initiator.payloads_vazios());
    assert!(responder.payloads_vazios());
}
