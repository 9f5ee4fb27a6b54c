use securechat::noise_lab::{
    HANDSHAKE_BUFFER_SIZE, criar_initiator, criar_responder, finalizar_handshake,
};
use securechat::verification::{
    CHAT, CLOSE, CategoriaErroSessao, ControleIdle, ErroSessao, EstadoSessao, EventoRemoto,
    MAX_CHAT_CONTENT, MotivoClose, SessaoVerificacao, VERIFY_CONFIRMED,
    ComandoChat, DecisaoUsuario, classificar_linha_chat, escolha_lida, interpretar_escolha,
    remover_terminador_linha,
};

fn par_sessoes() -> (SessaoVerificacao, SessaoVerificacao) {
    let mut alice = criar_initiator().unwrap();
    let mut bob = criar_responder().unwrap();
    let mut mensagem = vec![0_u8; HANDSHAKE_BUFFER_SIZE];
    let mut payload = vec![0_u8; HANDSHAKE_BUFFER_SIZE];

    let n = alice.escrever_mensagem(&[], &mut mensagem).unwrap();
    assert_eq!(bob.ler_mensagem(&mensagem[..n], &mut payload), Ok(0));
    let n = bob.escrever_mensagem(&[], &mut mensagem).unwrap();
    assert_eq!(alice.ler_mensagem(&mensagem[..n], &mut payload), Ok(0));
    let n = alice.escrever_mensagem(&[], &mut mensagem).unwrap();
    assert_eq!(bob.ler_mensagem(&mensagem[..n], &mut payload), Ok(0));

    (
        SessaoVerificacao::new(finalizar_handshake(alice, [0; 3]).unwrap()),
        SessaoVerificacao::new(finalizar_handshake(bob, [0; 3]).unwrap()),
    )
}

fn par_verified() -> (SessaoVerificacao, SessaoVerificacao) {
    let (mut alice, mut bob) = par_sessoes();
    let de_alice = alice.confirmar_localmente().unwrap();
    let de_bob = bob.confirmar_localmente().unwrap();
    alice.processar_ciphertext(&de_bob).unwrap();
    bob.processar_ciphertext(&de_alice).unwrap();
    (alice, bob)
}

fn cifrar_bruto(sessao: &mut SessaoVerificacao, plaintext: &[u8]) -> Vec<u8> {
    sessao.cifrar(plaintext).unwrap()
}

fn categoria_erro(resultado: Result<EventoRemoto, ErroSessao>) -> CategoriaErroSessao {
    match resultado {
        Err(erro) => erro.categoria(),
        Ok(_) => panic!("a operação deveria falhar"),
    }
}

#[test]
fn confirmacao_local_isolada_permanece_unverified() {
    let (mut alice, _) = par_sessoes();
    assert_eq!(alice.confirmar_localmente().unwrap().len(), 17);
    assert!(alice.local_confirmed());
    assert!(!alice.peer_confirmed());
    assert_eq!(alice.estado(), EstadoSessao::Unverified);
}

#[test]
fn confirmacao_remota_isolada_nao_altera_confirmacao_local() {
    let (mut alice, mut bob) = par_sessoes();
    let ciphertext = bob.confirmar_localmente().unwrap();
    assert!(matches!(
        alice.processar_ciphertext(&ciphertext).unwrap(),
        EventoRemoto::VerifyConfirmed
    ));
    assert!(!alice.local_confirmed());
    assert!(alice.peer_confirmed());
    assert_eq!(alice.estado(), EstadoSessao::Unverified);
}

#[test]
fn confirmacao_remota_antes_da_local_chega_a_verified_somente_depois() {
    let (mut alice, mut bob) = par_sessoes();
    let ciphertext = bob.confirmar_localmente().unwrap();
    alice.processar_ciphertext(&ciphertext).unwrap();
    assert_eq!(alice.estado(), EstadoSessao::Unverified);
    alice.confirmar_localmente().unwrap();
    assert_eq!(alice.estado(), EstadoSessao::Verified);
}

#[test]
fn ambas_as_confirmacoes_levam_a_verified() {
    let (mut alice, mut bob) = par_sessoes();
    let de_alice = alice.confirmar_localmente().unwrap();
    let de_bob = bob.confirmar_localmente().unwrap();
    alice.processar_ciphertext(&de_bob).unwrap();
    bob.processar_ciphertext(&de_alice).unwrap();
    assert_eq!(alice.estado(), EstadoSessao::Verified);
    assert_eq!(bob.estado(), EstadoSessao::Verified);
}

#[test]
fn divergencia_e_cancelamento_sao_terminais_distintos() {
    let (mut alice, mut bob) = par_sessoes();
    alice.divergencia_local().unwrap();
    bob.cancelamento_local().unwrap();
    assert_eq!(alice.estado(), EstadoSessao::Failed);
    assert_eq!(bob.estado(), EstadoSessao::Closed);
    assert!(alice.confirmar_localmente().is_err());
    assert!(bob.confirmar_localmente().is_err());
}

#[test]
fn verify_confirmed_deve_ser_exatamente_um_byte() {
    let (mut alice, mut bob) = par_sessoes();
    let extra = cifrar_bruto(&mut bob, &[VERIFY_CONFIRMED, 0]);
    assert_eq!(
        categoria_erro(alice.processar_ciphertext(&extra)),
        CategoriaErroSessao::Protocolo
    );
}

#[test]
fn mensagem_desconhecida_autenticada_e_chat_falham() {
    let (mut alice, mut bob) = par_sessoes();
    let desconhecida = cifrar_bruto(&mut bob, &[0x7f]);
    assert!(alice.processar_ciphertext(&desconhecida).is_err());

    let (mut alice, mut bob) = par_sessoes();
    let chat = cifrar_bruto(&mut bob, &[CHAT, b'x']);
    assert!(alice.processar_ciphertext(&chat).is_err());
}

#[test]
fn confirmacao_duplicada_nova_e_replay_falham() {
    let (mut alice, mut bob) = par_sessoes();
    let primeira = cifrar_bruto(&mut bob, &[VERIFY_CONFIRMED]);
    alice.processar_ciphertext(&primeira).unwrap();
    let segunda = cifrar_bruto(&mut bob, &[VERIFY_CONFIRMED]);
    assert_eq!(
        categoria_erro(alice.processar_ciphertext(&segunda)),
        CategoriaErroSessao::Protocolo
    );

    let (mut alice, mut bob) = par_sessoes();
    let ciphertext = cifrar_bruto(&mut bob, &[VERIFY_CONFIRMED]);
    alice.processar_ciphertext(&ciphertext).unwrap();
    assert_eq!(
        categoria_erro(alice.processar_ciphertext(&ciphertext)),
        CategoriaErroSessao::Aead
    );

    let (mut alice, mut bob) = par_verified();
    let fora_de_estado = cifrar_bruto(&mut bob, &[VERIFY_CONFIRMED]);
    assert_eq!(
        categoria_erro(alice.processar_ciphertext(&fora_de_estado)),
        CategoriaErroSessao::Protocolo
    );
    assert_eq!(alice.estado(), EstadoSessao::Failed);
}

#[test]
fn adulteracao_reflexao_reordenacao_e_replay_entre_sessoes_falham() {
    let (mut alice, mut bob) = par_sessoes();
    let mut adulterado = bob.confirmar_localmente().unwrap();
    let ultimo = adulterado.len() - 1;
    adulterado[ultimo] ^= 1;
    assert_eq!(
        categoria_erro(alice.processar_ciphertext(&adulterado)),
        CategoriaErroSessao::Aead
    );

    let (mut alice, _) = par_sessoes();
    let refletido = alice.confirmar_localmente().unwrap();
    assert!(alice.processar_ciphertext(&refletido).is_err());

    let (mut alice, mut bob) = par_sessoes();
    let _primeiro = cifrar_bruto(&mut bob, &[0x70]);
    let segundo = cifrar_bruto(&mut bob, &[0x71]);
    assert!(alice.processar_ciphertext(&segundo).is_err());

    let (_, mut bob_antigo) = par_sessoes();
    let antigo = cifrar_bruto(&mut bob_antigo, &[VERIFY_CONFIRMED]);
    let (mut alice_nova, _) = par_sessoes();
    assert!(alice_nova.processar_ciphertext(&antigo).is_err());
}

#[test]
fn close_autenticado_verification_aborted_e_resposta_reciproca() {
    let (mut alice, mut bob) = par_sessoes();
    let close = alice
        .iniciar_close(MotivoClose::VerificationAborted)
        .unwrap();
    let evento = bob.processar_ciphertext(&close).unwrap();
    let resposta = match evento {
        EventoRemoto::Close { motivo, resposta } => {
            assert_eq!(motivo, MotivoClose::VerificationAborted);
            resposta.expect("resposta recíproca")
        }
        _ => panic!("evento inesperado"),
    };
    assert!(matches!(
        alice.processar_ciphertext(&resposta).unwrap(),
        EventoRemoto::Close { .. }
    ));
    alice.concluir_close_recebido();
    bob.concluir_close_recebido();
    assert_eq!(alice.estado(), EstadoSessao::Closed);
    assert_eq!(bob.estado(), EstadoSessao::Closed);
}

#[test]
fn close_adulterado_reason_invalido_e_timeout_sao_tratados() {
    let (mut alice, mut bob) = par_sessoes();
    let mut close = bob.iniciar_close(MotivoClose::VerificationAborted).unwrap();
    let ultimo = close.len() - 1;
    close[ultimo] ^= 1;
    assert_eq!(
        categoria_erro(alice.processar_ciphertext(&close)),
        CategoriaErroSessao::Aead
    );

    let (mut alice, mut bob) = par_sessoes();
    let invalido = cifrar_bruto(&mut bob, &[CLOSE, 0xff]);
    assert_eq!(
        categoria_erro(alice.processar_ciphertext(&invalido)),
        CategoriaErroSessao::Protocolo
    );

    let (mut alice, _) = par_sessoes();
    alice.iniciar_close(MotivoClose::Normal).unwrap();
    alice.timeout_close();
    assert_eq!(alice.estado(), EstadoSessao::Closed);
}

#[test]
fn timeout_e_interrupcao_nao_sao_close_autenticado() {
    let (mut alice, mut bob) = par_sessoes();
    alice.timeout_verificacao().unwrap();
    bob.registrar_interrupcao();
    assert_eq!(alice.estado(), EstadoSessao::Closed);
    assert_eq!(bob.estado(), EstadoSessao::Closed);
    assert!(!bob.peer_close_received());
}

#[test]
fn chat_aceita_um_e_4096_bytes_com_ciphertext_esperado() {
    let (mut alice, mut bob) = par_verified();
    let minimo = alice.enviar_chat("x").unwrap();
    assert_eq!(minimo.len(), 18);
    assert!(matches!(
        bob.processar_ciphertext(&minimo).unwrap(),
        EventoRemoto::Chat(conteudo) if conteudo == "x"
    ));

    let maximo = "a".repeat(MAX_CHAT_CONTENT);
    let ciphertext = alice.enviar_chat(&maximo).unwrap();
    assert_eq!(ciphertext.len(), 4113);
    assert!(matches!(
        bob.processar_ciphertext(&ciphertext).unwrap(),
        EventoRemoto::Chat(conteudo) if conteudo.len() == MAX_CHAT_CONTENT
    ));
}

#[test]
fn chat_local_vazio_e_4097_sao_rejeitados_sem_consumir_nonce() {
    let (mut alice, mut bob) = par_verified();
    assert!(alice.enviar_chat("").is_err());
    assert!(
        alice
            .enviar_chat(&"a".repeat(MAX_CHAT_CONTENT + 1))
            .is_err()
    );

    let valido = alice.enviar_chat("válido").unwrap();
    assert!(matches!(
        bob.processar_ciphertext(&valido).unwrap(),
        EventoRemoto::Chat(conteudo) if conteudo == "válido"
    ));
}

#[test]
fn chat_remoto_vazio_grande_e_utf8_invalido_falham() {
    let (mut alice, mut bob) = par_verified();
    let vazio = cifrar_bruto(&mut bob, &[CHAT]);
    assert_eq!(
        categoria_erro(alice.processar_ciphertext(&vazio)),
        CategoriaErroSessao::Protocolo
    );

    let (mut alice, mut bob) = par_verified();
    let mut grande = vec![CHAT];
    grande.extend(std::iter::repeat_n(b'a', MAX_CHAT_CONTENT + 1));
    let grande = cifrar_bruto(&mut bob, &grande);
    assert_eq!(
        categoria_erro(alice.processar_ciphertext(&grande)),
        CategoriaErroSessao::Protocolo
    );

    let (mut alice, mut bob) = par_verified();
    let invalido = cifrar_bruto(&mut bob, &[CHAT, 0xff]);
    assert_eq!(
        categoria_erro(alice.processar_ciphertext(&invalido)),
        CategoriaErroSessao::Protocolo
    );
}

#[test]
fn chat_antes_de_verified_e_depois_de_closing_falha() {
    let (mut alice, mut bob) = par_sessoes();
    assert_eq!(
        alice.enviar_chat("não permitido").unwrap_err().categoria(),
        CategoriaErroSessao::Estado
    );
    let prematuro = cifrar_bruto(&mut bob, &[CHAT, b'x']);
    assert_eq!(
        categoria_erro(alice.processar_ciphertext(&prematuro)),
        CategoriaErroSessao::Protocolo
    );

    let (mut alice, mut bob) = par_verified();
    alice.iniciar_close(MotivoClose::Normal).unwrap();
    assert_eq!(
        alice.enviar_chat("tarde").unwrap_err().categoria(),
        CategoriaErroSessao::Estado
    );
    let tarde = bob.enviar_chat("tarde").unwrap();
    assert_eq!(
        categoria_erro(alice.processar_ciphertext(&tarde)),
        CategoriaErroSessao::Protocolo
    );
}

#[test]
fn chat_adulterado_replay_reordenado_removido_e_refletido_falha() {
    let (mut alice, mut bob) = par_verified();
    let mut adulterado = bob.enviar_chat("segredo").unwrap();
    *adulterado.last_mut().unwrap() ^= 1;
    assert_eq!(
        categoria_erro(alice.processar_ciphertext(&adulterado)),
        CategoriaErroSessao::Aead
    );
    assert!(alice.processar_ciphertext(&adulterado).is_err());

    let (mut alice, mut bob) = par_verified();
    let replay = bob.enviar_chat("uma vez").unwrap();
    alice.processar_ciphertext(&replay).unwrap();
    assert!(alice.processar_ciphertext(&replay).is_err());

    let (mut alice, mut bob) = par_verified();
    let _removido = bob.enviar_chat("primeiro").unwrap();
    let segundo = bob.enviar_chat("segundo").unwrap();
    assert!(alice.processar_ciphertext(&segundo).is_err());

    let (mut alice, _) = par_verified();
    let refletido = alice.enviar_chat("reflexão").unwrap();
    assert!(alice.processar_ciphertext(&refletido).is_err());
}

#[test]
fn chat_de_outra_sessao_e_type_cifrado_alterado_falham() {
    let (_, mut bob_antigo) = par_verified();
    let antigo = bob_antigo.enviar_chat("sessão antiga").unwrap();
    let (mut alice_nova, _) = par_verified();
    assert!(alice_nova.processar_ciphertext(&antigo).is_err());

    let (mut alice, mut bob) = par_verified();
    let desconhecido = cifrar_bruto(&mut bob, &[0x7f, b'x']);
    assert_eq!(
        categoria_erro(alice.processar_ciphertext(&desconhecido)),
        CategoriaErroSessao::Protocolo
    );
}

#[test]
fn idle_inicia_reseta_e_produz_close_idle_timeout() {
    let inicio: u64 = 1_000;
    let mut idle = ControleIdle::new(10_000, inicio);
    assert_eq!(idle.deadline(), inicio + 10_000);
    idle.registrar_atividade(inicio + 3_000);
    assert_eq!(idle.deadline(), inicio + 13_000);

    let (mut alice, mut bob) = par_verified();
    let close = alice.timeout_idle().unwrap();
    assert_eq!(alice.estado(), EstadoSessao::Closing);
    assert!(matches!(
        bob.processar_ciphertext(&close).unwrap(),
        EventoRemoto::Close {
            motivo: MotivoClose::IdleTimeout,
            ..
        }
    ));
}

#[test]
fn comando_sair_exige_correspondencia_exata_apos_crlf() {
    let mut comando = "/sair\r\n".to_owned();
    remover_terminador_linha(&mut comando);
    assert_eq!(comando, "/sair");

    for mensagem in [" /sair\n", "/sair \n", "/SAIR\n"] {
        let mut mensagem = mensagem.to_owned();
        remover_terminador_linha(&mut mensagem);
        assert_ne!(mensagem, "/sair");
    }
}

#[test]
fn escolha_de_verificacao_ignora_espacos_e_caixa() {
    assert_eq!(interpretar_escolha("s\n"), Some(DecisaoUsuario::Confirma));
    assert_eq!(interpretar_escolha("  S \r\n"), Some(DecisaoUsuario::Confirma));
    assert_eq!(interpretar_escolha("N\n"), Some(DecisaoUsuario::Diverge));
    assert_eq!(interpretar_escolha("\tc\n"), Some(DecisaoUsuario::Cancela));
    assert_eq!(interpretar_escolha("sim\n"), None);
    assert_eq!(interpretar_escolha("\n"), None);
    assert_eq!(interpretar_escolha("s n"), None);
}

#[test]
fn sessao_falha_apos_close_recebido_continua_failed() {
    let (mut alice, mut bob) = par_sessoes();
    let close = alice.iniciar_close(MotivoClose::Normal).unwrap();
    assert!(matches!(
        bob.processar_ciphertext(&close),
        Ok(EventoRemoto::Close { .. })
    ));
    assert_eq!(
        bob.processar_ciphertext(&[0_u8; 32]).err().map(|erro| erro.categoria()),
        Some(CategoriaErroSessao::Aead)
    );
    assert_eq!(bob.estado(), EstadoSessao::Failed);
    bob.concluir_close_recebido();
    assert_eq!(bob.estado(), EstadoSessao::Failed);
}

#[test]
fn leitura_do_terminal_vira_decisao_ou_comando() {
    assert_eq!(escolha_lida(true, ""), Some(DecisaoUsuario::Cancela));
    assert_eq!(escolha_lida(false, "n\n"), Some(DecisaoUsuario::Diverge));
    assert_eq!(escolha_lida(false, "talvez\n"), None);

    let mut linha = "olá\r\n".to_owned();
    assert_eq!(classificar_linha_chat(false, &mut linha), ComandoChat::Enviar);
    assert_eq!(linha, "olá");
    let mut sair = "/sair\n".to_owned();
    assert_eq!(classificar_linha_chat(false, &mut sair), ComandoChat::Encerrar);
    let mut quase = "/sair \n".to_owned();
    assert_eq!(classificar_linha_chat(false, &mut quase), ComandoChat::Enviar);
    let mut vazio = String::new();
    assert_eq!(classificar_linha_chat(true, &mut vazio), ComandoChat::Encerrar);
}
