//! Handshake Noise XX com Snow, cópia do channel binding e fingerprint
//! canônico do hash final do handshake.

use vstd::prelude::*;
use snow::params::NoiseParams;
use snow::{Builder, HandshakeState, TransportState};
use zeroize::Zeroize;

verus! {

pub const PROTOCOL_NAME: &'static str = "Noise_XX_25519_ChaChaPoly_SHA256";

pub const PROLOGUE: &'static [u8; 15] = &[
    0x53, 0x65, 0x63, 0x75, 0x72, 0x65, 0x43, 0x68, 0x61, 0x74, 0x2d, 0x76, 0x30, 0x2e, 0x31,
];

pub const HANDSHAKE_BUFFER_SIZE: usize = 8192;

pub const HANDSHAKE_HASH_SIZE: usize = 32;

/// Tamanho do tag AEAD acrescentado por mensagem cifrada.
pub const TAG_LEN: usize = 16;

#[verifier::external_type_specification]
#[verifier::external_body]
pub struct ExHandshakeState(HandshakeState);

#[verifier::external_type_specification]
#[verifier::external_body]
pub struct ExTransportState(TransportState);

#[verifier::external_type_specification]
#[verifier::external_body]
pub struct ExSnowError(snow::Error);

#[verifier::external_type_specification]
#[verifier::external_body]
pub struct ExNoiseParams(NoiseParams);

#[verifier::external_type_specification]
#[verifier::external_body]
pub struct ExBuilder<'builder>(Builder<'builder>);

/// Falhas do handshake e da passagem para o modo transporte.
#[derive(Debug)]
pub enum ErroNoise {
    /// Erro devolvido pelo Snow (parsing, DH, AEAD, estado).
    Snow(snow::Error),
    /// O Snow ainda não indica o handshake como concluído.
    HandshakeNaoConcluido,
    /// O hash do handshake não tem 32 bytes.
    HashInvalido,
    /// Um payload de handshake recuperado não é vazio.
    PayloadNaoVazio,
    /// Mensagem de handshake fora da ordem XX para o papel local.
    ForaDeOrdem,
}

/// Parâmetros Noise interpretados pelo Snow, com o nome de protocolo de que
/// vieram. Só `analisar_parametros` cria um valor deste tipo.
pub struct ParametrosNoise {
    parametros: NoiseParams,
    nome: Ghost<Seq<char>>,
}

impl ParametrosNoise {
    /// Nome de protocolo entregue ao Snow.
    pub closed spec fn nome(&self) -> Seq<char> {
        self.nome@
    }
}

/// `snow::Builder` criado por `Builder::new` (resolvedor padrão), com o que já
/// lhe foi entregue: o nome do protocolo, o prologue e a chave privada local.
/// Só os wrappers abaixo criam ou alteram um valor deste tipo, cada um
/// registrando o argumento que passou ao Snow.
pub struct ConstrutorNoise<'builder> {
    builder: Builder<'builder>,
    protocolo: Ghost<Seq<char>>,
    prologo: Ghost<Option<Seq<u8>>>,
    chave_local: Ghost<Option<Seq<u8>>>,
}

impl<'builder> ConstrutorNoise<'builder> {
    pub closed spec fn protocolo(&self) -> Seq<char> {
        self.protocolo@
    }

    pub closed spec fn prologo(&self) -> Option<Seq<u8>> {
        self.prologo@
    }

    pub closed spec fn chave_local(&self) -> Option<Seq<u8>> {
        self.chave_local@
    }
}

/// Estado de handshake do Snow com o protocolo, o prologue e o papel com
/// que foi construído, quantas mensagens o Snow já processou com sucesso,
/// os payloads e as mensagens trocados com `write_message` e `read_message`,
/// e o hash corrente que o Snow informa. Só os wrappers abaixo criam ou
/// alteram um valor deste tipo.
pub struct EstadoHandshake {
    estado: HandshakeState,
    protocolo: Ghost<Seq<char>>,
    prologo: Ghost<Option<Seq<u8>>>,
    initiator: Ghost<bool>,
    mensagens: Ghost<nat>,
    payloads_escritos: Ghost<Seq<Seq<u8>>>,
    payloads_lidos: Ghost<Seq<nat>>,
    mensagens_escritas: Ghost<Seq<Seq<u8>>>,
    mensagens_lidas: Ghost<Seq<Seq<u8>>>,
    hash: Ghost<Seq<u8>>,
}

impl EstadoHandshake {
    /// Nome do protocolo entregue ao Snow.
    pub closed spec fn protocolo(&self) -> Seq<char> {
        self.protocolo@
    }

    /// Prologue entregue ao Snow, se houve um.
    pub closed spec fn prologo(&self) -> Option<Seq<u8>> {
        self.prologo@
    }

    /// Se o estado foi construído para o lado que envia a primeira mensagem.
    pub closed spec fn e_initiator(&self) -> bool {
        self.initiator@
    }

    /// Mensagens do handshake escritas ou lidas com sucesso.
    pub closed spec fn mensagens(&self) -> nat {
        self.mensagens@
    }

    /// Payloads entregues ao Snow nas mensagens escritas com sucesso.
    pub closed spec fn payloads_escritos(&self) -> Seq<Seq<u8>> {
        self.payloads_escritos@
    }

    /// Tamanhos dos payloads recuperados nas mensagens lidas com sucesso.
    pub closed spec fn payloads_lidos(&self) -> Seq<nat> {
        self.payloads_lidos@
    }

    /// Bytes das mensagens que o Snow escreveu com sucesso, em ordem.
    pub closed spec fn mensagens_escritas(&self) -> Seq<Seq<u8>> {
        self.mensagens_escritas@
    }

    /// Todas as mensagens entregues ao Snow para ler, em ordem.
    pub closed spec fn mensagens_lidas(&self) -> Seq<Seq<u8>> {
        self.mensagens_lidas@
    }

    /// O hash `h` corrente do Snow, o que `get_handshake_hash` devolve.
    pub closed spec fn hash_snow(&self) -> Seq<u8> {
        self.hash@
    }

    /// Recém-construído com o protocolo e o prologue fixos e o papel dado:
    /// nenhuma mensagem processada.
    pub open spec fn recem_criado(&self, initiator: bool) -> bool {
        &&& self.protocolo() == PROTOCOL_NAME@
        &&& self.prologo() == Some(PROLOGUE@)
        &&& self.e_initiator() == initiator
        &&& self.mensagens() == 0
        &&& self.payloads_escritos() == Seq::<Seq<u8>>::empty()
        &&& self.payloads_lidos() == Seq::<nat>::empty()
        &&& self.mensagens_escritas() == Seq::<Seq<u8>>::empty()
        &&& self.mensagens_lidas() == Seq::<Seq<u8>>::empty()
    }

    /// O estado do Snow, para conduzir o handshake diretamente.
    pub fn estado_snow(self) -> (estado: HandshakeState) {
        self.estado
    }

    /// Escreve a próxima mensagem do handshake (veja `handshake_escrever`).
    pub fn escrever_mensagem(&mut self, payload: &[u8], mensagem: &mut Vec<u8>) -> (r: Result<
        usize,
        snow::Error,
    >)
        requires
            old(mensagem)@.len() >= payload@.len() + 144,
        ensures
            EstadoHandshake::escrita(old(self), final(self), payload@, final(mensagem)@, r),
            final(mensagem)@.len() == old(mensagem)@.len(),
            r matches Ok(n) ==> n <= old(mensagem)@.len(),
        no_unwind
    {
        handshake_escrever(self, payload, mensagem)
    }

    /// Processa uma mensagem do handshake (veja `handshake_ler`).
    pub fn ler_mensagem(&mut self, mensagem: &[u8], payload: &mut Vec<u8>) -> (r: Result<
        usize,
        snow::Error,
    >)
        ensures
            EstadoHandshake::leitura(old(self), final(self), mensagem@, r),
            final(payload)@.len() == old(payload)@.len(),
            r matches Ok(n) ==> n <= mensagem@.len(),
        no_unwind
    {
        handshake_ler(self, mensagem, payload)
    }

    /// Se o Snow já processou todas as mensagens do padrão.
    pub fn terminou(&self) -> (r: bool)
        ensures
            self.protocolo() == PROTOCOL_NAME@ ==> r == (self.mensagens() == 3),
    {
        handshake_concluido(self)
    }

    /// Efeito de uma escrita: em caso de sucesso, mais uma mensagem e o
    /// payload registrado; em caso de falha, nada muda no que é registrado.
    pub open spec fn escrita(
        antes: &EstadoHandshake,
        depois: &EstadoHandshake,
        payload: Seq<u8>,
        mensagem: Seq<u8>,
        r: Result<usize, snow::Error>,
    ) -> bool {
        &&& depois.protocolo() == antes.protocolo()
        &&& depois.prologo() == antes.prologo()
        &&& depois.e_initiator() == antes.e_initiator()
        &&& depois.payloads_lidos() == antes.payloads_lidos()
        &&& depois.mensagens_lidas() == antes.mensagens_lidas()
        &&& r matches Ok(n) ==> n <= mensagem.len() && depois.mensagens() == antes.mensagens() + 1
            && depois.payloads_escritos() == antes.payloads_escritos().push(payload)
            && depois.mensagens_escritas() == antes.mensagens_escritas().push(mensagem.subrange(0, n as int))
        &&& r is Err ==> depois.mensagens() == antes.mensagens()
            && depois.payloads_escritos() == antes.payloads_escritos()
            && depois.mensagens_escritas() == antes.mensagens_escritas()
            && depois.hash_snow() == antes.hash_snow()
    }

    /// Efeito de uma leitura: em caso de sucesso, mais uma mensagem e o
    /// tamanho do payload recuperado registrado.
    pub open spec fn leitura(
        antes: &EstadoHandshake,
        depois: &EstadoHandshake,
        mensagem: Seq<u8>,
        r: Result<usize, snow::Error>,
    ) -> bool {
        &&& depois.protocolo() == antes.protocolo()
        &&& depois.prologo() == antes.prologo()
        &&& depois.e_initiator() == antes.e_initiator()
        &&& depois.payloads_escritos() == antes.payloads_escritos()
        &&& depois.mensagens_escritas() == antes.mensagens_escritas()
        &&& depois.mensagens_lidas() == antes.mensagens_lidas().push(mensagem)
        &&& r matches Ok(n) ==> depois.mensagens() == antes.mensagens() + 1
            && depois.payloads_lidos() == antes.payloads_lidos().push(n as nat)
        &&& r is Err ==> depois.mensagens() == antes.mensagens()
            && depois.payloads_lidos() == antes.payloads_lidos()
            && depois.hash_snow() == antes.hash_snow()
    }
}

/// `snow::TransportState` com o protocolo do handshake de origem, quantas
/// mensagens já cifrou com sucesso (o nonce de envio do Snow) e o registro
/// dos bytes trocados com o Snow: plaintexts cifrados e os ciphertexts que
/// o Snow escreveu para eles; mensagens entregues para decifrar e os
/// plaintexts que o Snow devolveu. Só os wrappers abaixo criam ou alteram um
/// valor deste tipo.
pub struct TransporteNoise {
    transporte: TransportState,
    protocolo: Ghost<Seq<char>>,
    nonce_envio: Ghost<nat>,
    textos_cifrados: Ghost<Seq<Seq<u8>>>,
    mensagens_enviadas: Ghost<Seq<Seq<u8>>>,
    mensagens_recebidas: Ghost<Seq<Seq<u8>>>,
    textos_decifrados: Ghost<Seq<Seq<u8>>>,
}

impl TransporteNoise {
    pub closed spec fn protocolo(&self) -> Seq<char> {
        self.protocolo@
    }

    /// Nonce da próxima mensagem cifrada.
    pub closed spec fn nonce_envio(&self) -> nat {
        self.nonce_envio@
    }

    /// Plaintexts cifrados com sucesso, em ordem.
    pub closed spec fn textos_cifrados(&self) -> Seq<Seq<u8>> {
        self.textos_cifrados@
    }

    /// Ciphertexts escritos pelo Snow para esses plaintexts, em ordem.
    pub closed spec fn mensagens_enviadas(&self) -> Seq<Seq<u8>> {
        self.mensagens_enviadas@
    }

    /// Todas as mensagens entregues ao Snow para decifrar, em ordem.
    pub closed spec fn mensagens_recebidas(&self) -> Seq<Seq<u8>> {
        self.mensagens_recebidas@
    }

    /// Plaintexts devolvidos pelo Snow nas decifrações com sucesso, em ordem.
    pub closed spec fn textos_decifrados(&self) -> Seq<Seq<u8>> {
        self.textos_decifrados@
    }

    /// Efeito de cifrar `payload` com resultado `r`, sendo `mensagem` o
    /// buffer de saída depois da chamada.
    pub open spec fn cifragem(
        antes: &TransporteNoise,
        depois: &TransporteNoise,
        payload: Seq<u8>,
        mensagem: Seq<u8>,
        r: Result<usize, snow::Error>,
    ) -> bool {
        &&& depois.protocolo() == antes.protocolo()
        &&& depois.mensagens_recebidas() == antes.mensagens_recebidas()
        &&& depois.textos_decifrados() == antes.textos_decifrados()
        &&& match r {
            Ok(n) => {
                &&& n <= mensagem.len()
                &&& depois.nonce_envio() == antes.nonce_envio() + 1
                &&& depois.textos_cifrados() == antes.textos_cifrados().push(payload)
                &&& depois.mensagens_enviadas() == antes.mensagens_enviadas().push(mensagem.subrange(0, n as int))
            },
            Err(_) => {
                &&& depois.nonce_envio() == antes.nonce_envio()
                &&& depois.textos_cifrados() == antes.textos_cifrados()
                &&& depois.mensagens_enviadas() == antes.mensagens_enviadas()
            },
        }
    }

    /// Efeito de decifrar `mensagem` com resultado `r`, sendo `payload` o
    /// buffer de saída depois da chamada.
    pub open spec fn decifragem(
        antes: &TransporteNoise,
        depois: &TransporteNoise,
        mensagem: Seq<u8>,
        payload: Seq<u8>,
        r: Result<usize, snow::Error>,
    ) -> bool {
        &&& depois.protocolo() == antes.protocolo()
        &&& depois.nonce_envio() == antes.nonce_envio()
        &&& depois.textos_cifrados() == antes.textos_cifrados()
        &&& depois.mensagens_enviadas() == antes.mensagens_enviadas()
        &&& depois.mensagens_recebidas() == antes.mensagens_recebidas().push(mensagem)
        &&& match r {
            Ok(n) => n <= payload.len() && depois.textos_decifrados() == antes.textos_decifrados().push(
                payload.subrange(0, n as int),
            ),
            Err(_) => depois.textos_decifrados() == antes.textos_decifrados(),
        }
    }
}

/// `<NoiseParams as FromStr>::from_str`: interpreta o nome de protocolo
/// Noise. Nada é afirmado do sucesso; um resultado `Ok` guarda o nome dado.
#[verifier::external_body]
fn analisar_parametros(nome: &str) -> (r: Result<ParametrosNoise, snow::Error>)
    ensures
        r matches Ok(p) ==> p.nome() == nome@,
{
    match nome.parse() {
        Ok(parametros) => Ok(ParametrosNoise { parametros, nome: Ghost(nome@) }),
        Err(e) => Err(e),
    }
}

/// `snow::Builder::new`: cria o construtor com o resolvedor padrão, ainda
/// sem prologue nem chave local.
#[verifier::external_body]
fn novo_builder<'builder>(parametros: ParametrosNoise) -> (c: ConstrutorNoise<'builder>)
    ensures
        c.protocolo() == parametros.nome(),
        c.prologo() is None,
        c.chave_local() is None,
{
    let ParametrosNoise { parametros, nome } = parametros;
    ConstrutorNoise { builder: Builder::new(parametros), protocolo: nome, prologo: Ghost(None), chave_local: Ghost(None) }
}

/// `snow::Builder::generate_keypair`: gera um novo par com a CSPRNG do Snow e
/// devolve a chave privada. O conteúdo é aleatório. Com o resolvedor padrão,
/// o único de `Builder::new`, todo DH disponível (25519, P-256) tem chave
/// privada de 32 bytes; 448 não tem implementação e falha.
#[verifier::external_body]
fn gerar_chave_privada(construtor: &ConstrutorNoise) -> (r: Result<Vec<u8>, snow::Error>)
    ensures
        r matches Ok(chave) ==> chave@.len() == 32,
{
    match construtor.builder.generate_keypair() {
        Ok(par) => Ok(par.private),
        Err(e) => Err(e),
    }
}

/// `snow::Builder::local_private_key`: registra a chave privada local, de
/// qualquer tamanho. Falha exatamente quando já há uma registrada.
#[verifier::external_body]
fn definir_chave_local<'builder>(construtor: ConstrutorNoise<'builder>, chave: &'builder [u8]) -> (r: Result<
    ConstrutorNoise<'builder>,
    snow::Error,
>)
    ensures
        r is Err <==> construtor.chave_local() is Some,
        r matches Ok(c) ==> c.protocolo() == construtor.protocolo() && c.prologo() == construtor.prologo()
            && c.chave_local() == Some(chave@),
{
    let ConstrutorNoise { builder, protocolo, prologo, .. } = construtor;
    match builder.local_private_key(chave) {
        Ok(builder) => Ok(ConstrutorNoise { builder, protocolo, prologo, chave_local: Ghost(Some(chave@)) }),
        Err(e) => Err(e),
    }
}

/// `snow::Builder::prologue`: registra o prologue a ser misturado no hash.
/// Falha exatamente quando já há um registrado.
#[verifier::external_body]
fn definir_prologo<'builder>(construtor: ConstrutorNoise<'builder>, prologo: &'builder [u8]) -> (r: Result<
    ConstrutorNoise<'builder>,
    snow::Error,
>)
    ensures
        r is Err <==> construtor.prologo() is Some,
        r matches Ok(c) ==> c.protocolo() == construtor.protocolo() && c.chave_local() == construtor.chave_local()
            && c.prologo() == Some(prologo@),
{
    let ConstrutorNoise { builder, protocolo, chave_local, .. } = construtor;
    match builder.prologue(prologo) {
        Ok(builder) => Ok(ConstrutorNoise { builder, protocolo, prologo: Ghost(Some(prologo@)), chave_local }),
        Err(e) => Err(e),
    }
}

/// `snow::Builder::build_initiator`: estado do lado que envia a primeira
/// mensagem, com o protocolo e o prologue registrados. O Snow copia a chave
/// local para um vetor de 32 bytes do DH e entra em pânico se ela for maior.
#[verifier::external_body]
fn construir_initiator(construtor: ConstrutorNoise) -> (r: Result<EstadoHandshake, snow::Error>)
    requires
        construtor.chave_local() matches Some(chave) ==> chave.len() <= 32,
    ensures
        r matches Ok(e) ==> e.protocolo() == construtor.protocolo() && e.prologo() == construtor.prologo()
            && e.e_initiator() && e.mensagens() == 0 && e.payloads_escritos() == Seq::<Seq<u8>>::empty()
            && e.payloads_lidos() == Seq::<nat>::empty() && e.mensagens_escritas() == Seq::<Seq<u8>>::empty()
            && e.mensagens_lidas() == Seq::<Seq<u8>>::empty(),
{
    let ConstrutorNoise { builder, protocolo, prologo, .. } = construtor;
    match builder.build_initiator() {
        Ok(estado) => Ok(EstadoHandshake {
            hash: Ghost(estado.get_handshake_hash()@), estado, protocolo, prologo, initiator: Ghost(true),
            mensagens: Ghost(0), payloads_escritos: Ghost(Seq::empty()), payloads_lidos: Ghost(Seq::empty()),
            mensagens_escritas: Ghost(Seq::empty()), mensagens_lidas: Ghost(Seq::empty()),
        }),
        Err(e) => Err(e),
    }
}

/// `snow::Builder::build_responder`: estado do lado que recebe a primeira
/// mensagem, com o protocolo e o prologue registrados. O Snow copia a chave
/// local para um vetor de 32 bytes do DH e entra em pânico se ela for maior.
#[verifier::external_body]
fn construir_responder(construtor: ConstrutorNoise) -> (r: Result<EstadoHandshake, snow::Error>)
    requires
        construtor.chave_local() matches Some(chave) ==> chave.len() <= 32,
    ensures
        r matches Ok(e) ==> e.protocolo() == construtor.protocolo() && e.prologo() == construtor.prologo()
            && !e.e_initiator() && e.mensagens() == 0 && e.payloads_escritos() == Seq::<Seq<u8>>::empty()
            && e.payloads_lidos() == Seq::<nat>::empty() && e.mensagens_escritas() == Seq::<Seq<u8>>::empty()
            && e.mensagens_lidas() == Seq::<Seq<u8>>::empty(),
{
    let ConstrutorNoise { builder, protocolo, prologo, .. } = construtor;
    match builder.build_responder() {
        Ok(estado) => Ok(EstadoHandshake {
            hash: Ghost(estado.get_handshake_hash()@), estado, protocolo, prologo, initiator: Ghost(false),
            mensagens: Ghost(0), payloads_escritos: Ghost(Seq::empty()), payloads_lidos: Ghost(Seq::empty()),
            mensagens_escritas: Ghost(Seq::empty()), mensagens_lidas: Ghost(Seq::empty()),
        }),
        Err(e) => Err(e),
    }
}

/// `Zeroize::zeroize` de `Vec<u8>`: zera os bytes e a capacidade e deixa o
/// vetor vazio (limpeza de melhor esforço).
#[verifier::external_body]
pub(crate) fn apagar_bytes(bytes: &mut Vec<u8>)
    ensures
        final(bytes)@.len() == 0,
{
    bytes.zeroize();
}

/// `HandshakeState::is_handshake_finished`: se todas as mensagens do padrão
/// já foram processadas. O Snow conta as mensagens escritas e lidas com
/// sucesso; no padrão XX são três.
#[verifier::external_body]
fn handshake_concluido(estado: &EstadoHandshake) -> (r: bool)
    ensures
        estado.protocolo() == PROTOCOL_NAME@ ==> r == (estado.mensagens() == 3),
{
    estado.estado.is_handshake_finished()
}

/// `HandshakeState::get_handshake_hash`: cópia do hash `h` corrente, com o
/// tamanho do hash do protocolo (32 bytes em SHA-256). O valor é o registrado
/// em `hash_snow`, lido do Snow pelos wrappers a cada passo do handshake.
#[verifier::external_body]
fn copiar_hash_handshake(estado: &EstadoHandshake) -> (h: Vec<u8>)
    ensures
        h@ == estado.hash_snow(),
        estado.protocolo() == PROTOCOL_NAME@ ==> h@.len() == HANDSHAKE_HASH_SIZE,
{
    estado.estado.get_handshake_hash().to_vec()
}

/// `HandshakeState::into_transport_mode`: consome o estado do handshake e
/// devolve o estado de transporte. Falha exatamente quando o handshake não
/// terminou; as cifras de transporte recebem chave e nonce zero no fim do
/// handshake.
#[verifier::external_body]
fn para_modo_transporte(estado: EstadoHandshake) -> (r: Result<TransporteNoise, snow::Error>)
    ensures
        estado.protocolo() == PROTOCOL_NAME@ ==> (r is Ok <==> estado.mensagens() == 3),
        r matches Ok(t) ==> t.protocolo() == estado.protocolo() && t.nonce_envio() == 0
            && t.textos_cifrados() == Seq::<Seq<u8>>::empty() && t.mensagens_enviadas() == Seq::<Seq<u8>>::empty()
            && t.mensagens_recebidas() == Seq::<Seq<u8>>::empty() && t.textos_decifrados() == Seq::<Seq<u8>>::empty(),
{
    let EstadoHandshake { estado, protocolo, .. } = estado;
    match estado.into_transport_mode() {
        Ok(transporte) => Ok(TransporteNoise {
            transporte,
            protocolo,
            nonce_envio: Ghost(0),
            textos_cifrados: Ghost(Seq::empty()),
            mensagens_enviadas: Ghost(Seq::empty()),
            mensagens_recebidas: Ghost(Seq::empty()),
            textos_decifrados: Ghost(Seq::empty()),
        }),
        Err(e) => Err(e),
    }
}

/// `HandshakeState::write_message`: escreve a próxima mensagem do handshake
/// em `mensagem` e devolve quantos bytes usou, nunca mais que o buffer. O
/// buffer deve ter folga para as chaves e o tag (o Snow entra em pânico se o
/// espaço faltar só para o tag de `s`; com a folga exigida, não entra em
/// pânico); o conteúdo escrito não é afirmado. Só uma escrita com sucesso avança o Snow para a mensagem seguinte.
#[verifier::external_body]
fn handshake_escrever(estado: &mut EstadoHandshake, payload: &[u8], mensagem: &mut Vec<u8>) -> (r:
    Result<usize, snow::Error>)
    requires
        old(mensagem)@.len() >= payload@.len() + 144,
    ensures
        EstadoHandshake::escrita(old(estado), final(estado), payload@, final(mensagem)@, r),
        final(mensagem)@.len() == old(mensagem)@.len(),
        r matches Ok(n) ==> n <= old(mensagem)@.len(),
    no_unwind
{
    let r = estado.estado.write_message(payload, mensagem.as_mut_slice());
    if let Ok(n) = r {
        estado.mensagens = Ghost(estado.mensagens@ + 1);
        estado.payloads_escritos = Ghost(estado.payloads_escritos@.push(payload@));
        estado.mensagens_escritas = Ghost(estado.mensagens_escritas@.push(mensagem@.subrange(0, n as int)));
        estado.hash = Ghost(estado.estado.get_handshake_hash()@);
    }
    r
}

/// `HandshakeState::read_message`: processa uma mensagem do handshake e
/// devolve o tamanho do payload recuperado, que nunca excede a mensagem.
/// O Snow confere os tamanhos e não entra em pânico. Só uma leitura com sucesso avança o Snow para a mensagem seguinte.
#[verifier::external_body]
fn handshake_ler(estado: &mut EstadoHandshake, mensagem: &[u8], payload: &mut Vec<u8>) -> (r: Result<
    usize,
    snow::Error,
>)
    ensures
        EstadoHandshake::leitura(old(estado), final(estado), mensagem@, r),
        final(payload)@.len() == old(payload)@.len(),
        r matches Ok(n) ==> n <= mensagem@.len(),
    no_unwind
{
    let r = estado.estado.read_message(mensagem, payload.as_mut_slice());
    estado.mensagens_lidas = Ghost(estado.mensagens_lidas@.push(mensagem@));
    if let Ok(n) = r {
        estado.mensagens = Ghost(estado.mensagens@ + 1);
        estado.payloads_lidos = Ghost(estado.payloads_lidos@.push(n as nat));
        estado.hash = Ghost(estado.estado.get_handshake_hash()@);
    }
    r
}

/// `TransportState::write_message`: cifra `payload` em `mensagem` com o
/// próximo nonce de saída. Pelo código do Snow, um resultado `Ok` tem
/// exatamente `payload + 16` bytes e avança o nonce. Falha só se o buffer não
/// couber o resultado, se ele passar de 65535 bytes, se o padrão for de mão
/// única (não é o caso de XX) ou se o nonce chegou a `u64::MAX`; a chave de
/// transporte está sempre presente. O registro guarda o plaintext entregue e
/// os bytes que o Snow escreveu; o valor cifrado não é afirmado.
#[verifier::external_body]
fn transporte_escrever(
    transporte: &mut TransporteNoise,
    payload: &[u8],
    mensagem: &mut Vec<u8>,
) -> (r: Result<usize, snow::Error>)
    ensures
        TransporteNoise::cifragem(old(transporte), final(transporte), payload@, final(mensagem)@, r),
        final(mensagem)@.len() == old(mensagem)@.len(),
        r matches Ok(n) ==> n == payload@.len() + TAG_LEN,
        payload@.len() + TAG_LEN > old(mensagem)@.len() ==> r.is_err(),
        old(transporte).protocolo() == PROTOCOL_NAME@ && old(transporte).nonce_envio() < u64::MAX
            && payload@.len() + TAG_LEN <= old(mensagem)@.len() && payload@.len() + TAG_LEN <= 65535
            ==> r is Ok,
    no_unwind
{
    let r = transporte.transporte.write_message(payload, mensagem.as_mut_slice());
    if let Ok(n) = r {
        transporte.nonce_envio = Ghost(transporte.nonce_envio@ + 1);
        transporte.textos_cifrados = Ghost(transporte.textos_cifrados@.push(payload@));
        transporte.mensagens_enviadas = Ghost(transporte.mensagens_enviadas@.push(mensagem@.subrange(0, n as int)));
    }
    r
}

/// `TransportState::read_message`: decifra e autentica `mensagem` com o
/// próximo nonce de entrada e escreve o payload no início de `payload`. Pelo
/// código do Snow, um resultado `Ok` tem exatamente `mensagem - 16` bytes;
/// mensagem menor que o tag, maior que 65535 bytes ou sem espaço no buffer
/// falha. O registro guarda a mensagem entregue e o plaintext que o Snow
/// devolveu; qual mensagem autentica depende da chave e do nonce e não é
/// afirmado. O Snow confere os tamanhos antes de decifrar e não entra em
/// pânico; o nonce de envio não muda.
#[verifier::external_body]
fn transporte_ler(
    transporte: &mut TransporteNoise,
    mensagem: &[u8],
    payload: &mut Vec<u8>,
) -> (r: Result<usize, snow::Error>)
    ensures
        TransporteNoise::decifragem(old(transporte), final(transporte), mensagem@, final(payload)@, r),
        final(payload)@.len() == old(payload)@.len(),
        r matches Ok(n) ==> mensagem@.len() >= TAG_LEN && n == mensagem@.len() - TAG_LEN,
        mensagem@.len() < TAG_LEN ==> r.is_err(),
        mensagem@.len() > 65535 ==> r.is_err(),
        mensagem@.len() >= TAG_LEN && mensagem@.len() - TAG_LEN > old(payload)@.len() ==> r.is_err(),
    no_unwind
{
    let r = transporte.transporte.read_message(mensagem, payload.as_mut_slice());
    transporte.mensagens_recebidas = Ghost(transporte.mensagens_recebidas@.push(mensagem@));
    if let Ok(n) = r {
        transporte.textos_decifrados = Ghost(transporte.textos_decifrados@.push(payload@.subrange(0, n as int)));
    }
    r
}

/// `String::push`: acrescenta um caractere ao final do texto.
#[verifier::external_body]
fn acrescentar_caractere(texto: &mut String, c: char)
    ensures
        final(texto)@ == old(texto)@.push(c),
{
    texto.push(c);
}

} // verus!

verus! {

/// Dígito hexadecimal minúsculo de um nibble.
pub open spec fn digito_hex(v: int) -> char {
    if v < 10 {
        (48 + v) as char
    } else {
        (87 + v) as char
    }
}

/// Fingerprint dos `n` primeiros bytes: dois dígitos hexadecimais minúsculos
/// por byte, com hífen antes de cada grupo de quatro bytes exceto o primeiro.
pub open spec fn fingerprint_prefixo(h: Seq<u8>, n: nat) -> Seq<char>
    decreases n,
{
    if n == 0 {
        seq![]
    } else {
        let i = (n - 1) as nat;
        let separador = if i > 0 && i % 4 == 0 { seq!['-'] } else { seq![] };
        fingerprint_prefixo(h, i) + separador + seq![digito_hex((h[i as int] / 16) as int), digito_hex((h[i as int] % 16) as int)]
    }
}

/// Codificação canônica e sem perdas do hash do handshake.
pub open spec fn texto_fingerprint(h: Seq<u8>) -> Seq<char> {
    fingerprint_prefixo(h, h.len())
}

fn caractere_hex(v: u8) -> (c: char)
    requires
        v < 16,
    ensures
        c == digito_hex(v as int),
{
    if v < 10 {
        (v + 48) as char
    } else {
        (v + 87) as char
    }
}

/// Formata os 32 bytes do hash como `hhhhhhhh-...-hhhhhhhh`: 64 dígitos
/// hexadecimais minúsculos e sete hífens.
pub fn formatar_fingerprint(hash: &[u8; HANDSHAKE_HASH_SIZE]) -> (fingerprint: String)
    ensures
        fingerprint@ == texto_fingerprint(hash@),
{
    let mut fingerprint = String::new();
    let mut indice: usize = 0;
    while indice < HANDSHAKE_HASH_SIZE
        invariant
            indice <= HANDSHAKE_HASH_SIZE,
            hash@.len() == HANDSHAKE_HASH_SIZE,
            fingerprint@ == fingerprint_prefixo(hash@, indice as nat),
        decreases HANDSHAKE_HASH_SIZE - indice,
    {
        let byte = hash[indice];
        if indice > 0 && indice % 4 == 0 {
            acrescentar_caractere(&mut fingerprint, '-');
        }
        acrescentar_caractere(&mut fingerprint, caractere_hex(byte / 16));
        acrescentar_caractere(&mut fingerprint, caractere_hex(byte % 16));
        assert(fingerprint_prefixo(hash@, (indice + 1) as nat) =~= fingerprint@);
        indice = indice + 1;
    }
    fingerprint
}

} // verus!

verus! {

/// Canal Noise pronto para transporte, com o channel binding copiado antes
/// da transição e o fingerprint derivado dele.
pub struct CanalNoise {
    handshake_hash: [u8; HANDSHAKE_HASH_SIZE],
    fingerprint: String,
    payload_lengths: [usize; 3],
    transport: TransporteNoise,
}

impl CanalNoise {
    #[verifier::type_invariant]
    spec fn fingerprint_corresponde(self) -> bool {
        self.fingerprint@ == texto_fingerprint(self.handshake_hash@)
    }

    /// Os 32 bytes de `get_handshake_hash()` no fim do handshake.
    pub closed spec fn hash_sessao(&self) -> Seq<u8> {
        self.handshake_hash@
    }

    /// Tamanhos dos payloads recuperados nas três mensagens do handshake.
    pub closed spec fn tamanhos_payload(&self) -> Seq<usize> {
        self.payload_lengths@
    }

    /// O estado de transporte com os seus registros.
    pub closed spec fn transporte_atual(&self) -> TransporteNoise {
        self.transport
    }

    /// Nome do protocolo do handshake que originou o canal.
    pub open spec fn protocolo(&self) -> Seq<char> {
        self.transporte_atual().protocolo()
    }

    /// Nonce da próxima mensagem cifrada pelo canal.
    pub open spec fn nonce_envio(&self) -> nat {
        self.transporte_atual().nonce_envio()
    }

    /// Nada foi cifrado nem entregue para decifrar.
    pub open spec fn sem_trafego(&self) -> bool {
        &&& self.transporte_atual().textos_cifrados() == Seq::<Seq<u8>>::empty()
        &&& self.transporte_atual().mensagens_enviadas() == Seq::<Seq<u8>>::empty()
        &&& self.transporte_atual().mensagens_recebidas() == Seq::<Seq<u8>>::empty()
        &&& self.transporte_atual().textos_decifrados() == Seq::<Seq<u8>>::empty()
    }

    pub fn handshake_hash(&self) -> (hash: &[u8; HANDSHAKE_HASH_SIZE])
        ensures
            hash@ == self.hash_sessao(),
    {
        &self.handshake_hash
    }

    pub fn fingerprint(&self) -> (fingerprint: &str)
        ensures
            fingerprint@ == texto_fingerprint(self.hash_sessao()),
    {
        proof {
            use_type_invariant(self);
        }
        self.fingerprint.as_str()
    }

    pub fn payloads_vazios(&self) -> (vazios: bool)
        ensures
            vazios == (self.tamanhos_payload() =~= seq![0usize, 0usize, 0usize]),
    {
        let vazios = self.payload_lengths[0] == 0 && self.payload_lengths[1] == 0
            && self.payload_lengths[2] == 0;
        proof {
            if vazios {
                assert(self.tamanhos_payload() =~= seq![0usize, 0usize, 0usize]);
            }
        }
        vazios
    }

    /// Cifra um payload com o estado de transporte do canal.
    pub(crate) fn cifrar_transporte(&mut self, payload: &[u8], mensagem: &mut Vec<u8>) -> (r: Result<
        usize,
        snow::Error,
    >)
        ensures
            final(self).hash_sessao() == old(self).hash_sessao(),
            final(self).tamanhos_payload() == old(self).tamanhos_payload(),
            TransporteNoise::cifragem(&old(self).transporte_atual(), &final(self).transporte_atual(), payload@,
                final(mensagem)@, r),
            final(mensagem)@.len() == old(mensagem)@.len(),
            r matches Ok(n) ==> n == payload@.len() + TAG_LEN,
            payload@.len() + TAG_LEN > old(mensagem)@.len() ==> r.is_err(),
            old(self).protocolo() == PROTOCOL_NAME@ && old(self).nonce_envio() < u64::MAX
                && payload@.len() + TAG_LEN <= old(mensagem)@.len() && payload@.len() + TAG_LEN <= 65535
                ==> r is Ok,
        no_unwind
    {
        proof {
            use_type_invariant(&*self);
        }
        transporte_escrever(&mut self.transport, payload, mensagem)
    }

    /// Decifra e autentica uma mensagem com o estado de transporte do canal.
    pub(crate) fn decifrar_transporte(&mut self, mensagem: &[u8], payload: &mut Vec<u8>) -> (r: Result<
        usize,
        snow::Error,
    >)
        ensures
            final(self).hash_sessao() == old(self).hash_sessao(),
            final(self).tamanhos_payload() == old(self).tamanhos_payload(),
            TransporteNoise::decifragem(&old(self).transporte_atual(), &final(self).transporte_atual(), mensagem@,
                final(payload)@, r),
            final(payload)@.len() == old(payload)@.len(),
            r matches Ok(n) ==> mensagem@.len() >= TAG_LEN && n == mensagem@.len() - TAG_LEN,
            mensagem@.len() < TAG_LEN ==> r.is_err(),
            mensagem@.len() > 65535 ==> r.is_err(),
            mensagem@.len() >= TAG_LEN && mensagem@.len() - TAG_LEN > old(payload)@.len()
                ==> r.is_err(),
        no_unwind
    {
        proof {
            use_type_invariant(&*self);
        }
        transporte_ler(&mut self.transport, mensagem, payload)
    }
}

fn construir_estado<'builder>(construtor: ConstrutorNoise<'builder>, privada: &'builder [u8], initiator: bool) -> (r:
    Result<EstadoHandshake, ErroNoise>)
    requires
        construtor.prologo() is None,
        construtor.chave_local() is None,
        privada@.len() <= 32,
    ensures
        r matches Ok(h) ==> h.protocolo() == construtor.protocolo() && h.prologo() == Some(PROLOGUE@)
            && h.e_initiator() == initiator && h.mensagens() == 0
            && h.payloads_escritos() == Seq::<Seq<u8>>::empty() && h.payloads_lidos() == Seq::<nat>::empty()
            && h.mensagens_escritas() == Seq::<Seq<u8>>::empty() && h.mensagens_lidas() == Seq::<Seq<u8>>::empty(),
        r matches Err(e) ==> e is Snow,
{
    let construtor = match definir_chave_local(construtor, privada) {
        Ok(c) => c,
        Err(e) => return Err(ErroNoise::Snow(e)),
    };
    let construtor = match definir_prologo(construtor, PROLOGUE) {
        Ok(c) => c,
        Err(e) => return Err(ErroNoise::Snow(e)),
    };
    let estado = if initiator {
        construir_initiator(construtor)
    } else {
        construir_responder(construtor)
    };
    match estado {
        Ok(estado) => Ok(estado),
        Err(e) => Err(ErroNoise::Snow(e)),
    }
}

/// Cria um estado de handshake com o protocolo e o prologue fixos, uma nova
/// chave de sessão `s` e o papel pedido; a cópia local da chave privada é
/// zerada depois da construção.
fn criar_estado(initiator: bool) -> (r: Result<EstadoHandshake, ErroNoise>)
    ensures
        r matches Ok(h) ==> h.recem_criado(initiator),
        r matches Err(e) ==> e is Snow,
{
    let parametros = match analisar_parametros(PROTOCOL_NAME) {
        Ok(p) => p,
        Err(e) => return Err(ErroNoise::Snow(e)),
    };
    let construtor = novo_builder(parametros);
    let mut privada = match gerar_chave_privada(&construtor) {
        Ok(chave) => chave,
        Err(e) => return Err(ErroNoise::Snow(e)),
    };
    let estado = construir_estado(construtor, privada.as_slice(), initiator);
    apagar_bytes(&mut privada);
    estado
}

/// Estado de handshake do lado que conecta e envia a primeira mensagem, com
/// `Noise_XX_25519_ChaChaPoly_SHA256` e o prologue `SecureChat-v0.1`.
pub fn criar_initiator() -> (r: Result<EstadoHandshake, ErroNoise>)
    ensures
        r matches Ok(h) ==> h.recem_criado(true),
        r matches Err(e) ==> e is Snow,
{
    criar_estado(true)
}

/// Estado de handshake do lado que escuta e recebe a primeira mensagem, com
/// `Noise_XX_25519_ChaChaPoly_SHA256` e o prologue `SecureChat-v0.1`.
pub fn criar_responder() -> (r: Result<EstadoHandshake, ErroNoise>)
    ensures
        r matches Ok(h) ==> h.recem_criado(false),
        r matches Err(e) ==> e is Snow,
{
    criar_estado(false)
}

/// Decide o fim do handshake a partir do que o Snow informou: se todas as
/// mensagens foram processadas e o hash final. Falha com
/// `HandshakeNaoConcluido` antes do fim e com `HashInvalido` se o hash não
/// tiver 32 bytes; senão devolve o hash copiado.
pub fn hash_final_do_handshake(concluido: bool, hash: &[u8]) -> (r: Result<[u8; HANDSHAKE_HASH_SIZE], ErroNoise>)
    ensures
        !concluido ==> r matches Err(ErroNoise::HandshakeNaoConcluido),
        concluido && hash@.len() != HANDSHAKE_HASH_SIZE ==> r matches Err(ErroNoise::HashInvalido),
        concluido && hash@.len() == HANDSHAKE_HASH_SIZE ==> (r matches Ok(h) && h@ == hash@),
{
    if !concluido {
        return Err(ErroNoise::HandshakeNaoConcluido);
    }
    if hash.len() != HANDSHAKE_HASH_SIZE {
        return Err(ErroNoise::HashInvalido);
    }
    let mut copia: [u8; HANDSHAKE_HASH_SIZE] = [0u8; HANDSHAKE_HASH_SIZE];
    let mut i: usize = 0;
    while i < HANDSHAKE_HASH_SIZE
        invariant
            hash@.len() == HANDSHAKE_HASH_SIZE,
            i <= HANDSHAKE_HASH_SIZE,
            forall|j: int| 0 <= j < i ==> copia@[j] == hash@[j],
        decreases HANDSHAKE_HASH_SIZE - i,
    {
        copia[i] = hash[i];
        i = i + 1;
    }
    assert(copia@ =~= hash@);
    Ok(copia)
}

/// Exige o fim do handshake, copia os 32 bytes do hash antes de consumir o
/// estado e passa ao modo transporte. Com o protocolo fixo, termina com
/// sucesso exatamente depois das três mensagens XX.
pub fn finalizar_handshake(estado: EstadoHandshake, payload_lengths: [usize; 3]) -> (r: Result<
    CanalNoise,
    ErroNoise,
>)
    ensures
        estado.protocolo() == PROTOCOL_NAME@ ==> (r is Ok <==> estado.mensagens() == 3),
        estado.protocolo() == PROTOCOL_NAME@ && estado.mensagens() != 3 ==> r matches Err(
            ErroNoise::HandshakeNaoConcluido,
        ),
        r matches Ok(canal) ==> canal.tamanhos_payload() == payload_lengths@
            && canal.hash_sessao() == estado.hash_snow()
            && canal.hash_sessao().len() == HANDSHAKE_HASH_SIZE && canal.protocolo() == estado.protocolo()
            && canal.nonce_envio() == 0 && canal.sem_trafego(),
        r matches Err(e) ==> e is HandshakeNaoConcluido || e is HashInvalido || e is Snow,
{
    let concluido = handshake_concluido(&estado);
    let hash = copiar_hash_handshake(&estado);
    let handshake_hash = hash_final_do_handshake(concluido, hash.as_slice())?;
    let fingerprint = formatar_fingerprint(&handshake_hash);
    let transport = match para_modo_transporte(estado) {
        Ok(t) => t,
        Err(e) => return Err(ErroNoise::Snow(e)),
    };
    Ok(CanalNoise { handshake_hash, fingerprint, payload_lengths, transport })
}

} // verus!

verus! {

/// Caractere na posição `p` do fingerprint: hífen a cada nove posições e,
/// nas demais, o nibble alto ou baixo do byte correspondente.
pub open spec fn caractere_fingerprint(h: Seq<u8>, p: int) -> char {
    let q = p % 9;
    let k = (p / 9) * 4 + q / 2;
    if q == 8 {
        '-'
    } else if q % 2 == 0 {
        digito_hex((h[k] / 16) as int)
    } else {
        digito_hex((h[k] % 16) as int)
    }
}

proof fn lema_fingerprint_prefixo(h: Seq<u8>, n: nat)
    requires
        n <= h.len(),
    ensures
        fingerprint_prefixo(h, n).len() == (if n == 0 { 0 } else { 2 * n + (n - 1) / 4 }),
        forall|p: int|
            0 <= p < fingerprint_prefixo(h, n).len() ==> #[trigger] fingerprint_prefixo(h, n)[p]
                == caractere_fingerprint(h, p),
    decreases n,
{
    if n > 0 {
        let i = (n - 1) as nat;
        lema_fingerprint_prefixo(h, i);
        let m: int = (i / 4) as int;
        let r: int = (i % 4) as int;
        assert(i == 4 * m + r);
        let anterior = fingerprint_prefixo(h, i);
        let atual = fingerprint_prefixo(h, n);
        if i == 0 {
            assert(anterior.len() == 0);
        } else if r == 0 {
            assert(anterior.len() == 9 * m - 1);
            assert(caractere_fingerprint(h, 9 * m - 1) == '-');
            assert(caractere_fingerprint(h, 9 * m) == digito_hex((h[i as int] / 16) as int));
            assert(caractere_fingerprint(h, 9 * m + 1) == digito_hex((h[i as int] % 16) as int));
        } else {
            assert(anterior.len() == 9 * m + 2 * r);
            assert(caractere_fingerprint(h, 9 * m + 2 * r) == digito_hex((h[i as int] / 16) as int));
            assert(caractere_fingerprint(h, 9 * m + 2 * r + 1) == digito_hex((h[i as int] % 16) as int));
        }
        assert forall|p: int| 0 <= p < atual.len() implies #[trigger] atual[p] == caractere_fingerprint(h, p) by {
            if p < anterior.len() {
                assert(atual[p] == anterior[p]);
            }
        }
    }
}

/// O fingerprint de 32 bytes tem 71 caracteres: `-` exatamente nas posições
/// 8, 17, ..., 62 e dígitos hexadecimais minúsculos nas demais.
pub proof fn lei_fingerprint_formato(h: Seq<u8>)
    requires
        h.len() == HANDSHAKE_HASH_SIZE,
    ensures
        texto_fingerprint(h).len() == 71,
        forall|p: int|
            0 <= p < 71 ==> (#[trigger] texto_fingerprint(h)[p] == '-' <==> p % 9 == 8),
        forall|p: int|
            0 <= p < 71 && p % 9 != 8 ==> ('0' <= #[trigger] texto_fingerprint(h)[p] <= '9'
                || 'a' <= texto_fingerprint(h)[p] <= 'f'),
        forall|p: int| 0 <= p < 71 ==> #[trigger] texto_fingerprint(h)[p] == caractere_fingerprint(h, p),
{
    lema_fingerprint_prefixo(h, 32);
    assert forall|p: int| 0 <= p < 71 implies (#[trigger] texto_fingerprint(h)[p] == '-' <==> p % 9 == 8)
        && (p % 9 != 8 ==> ('0' <= texto_fingerprint(h)[p] <= '9' || 'a' <= texto_fingerprint(h)[p] <= 'f')) by {
        let q = p % 9;
        let k = (p / 9) * 4 + q / 2;
        if q != 8 {
            assert(0 <= k < 32);
        }
    }
}

proof fn lema_digito_hex_injetivo(a: int, b: int)
    requires
        0 <= a < 16,
        0 <= b < 16,
        digito_hex(a) == digito_hex(b),
    ensures
        a == b,
{
}

/// O fingerprint é sem perdas: hashes diferentes de 32 bytes têm
/// fingerprints diferentes.
pub proof fn lei_fingerprint_injetivo(h1: Seq<u8>, h2: Seq<u8>)
    requires
        h1.len() == HANDSHAKE_HASH_SIZE,
        h2.len() == HANDSHAKE_HASH_SIZE,
        texto_fingerprint(h1) == texto_fingerprint(h2),
    ensures
        h1 == h2,
{
    lei_fingerprint_formato(h1);
    lei_fingerprint_formato(h2);
    assert forall|k: int| 0 <= k < 32 implies h1[k] == h2[k] by {
        let p = (k / 4) * 9 + (k % 4) * 2;
        assert(p % 9 == (k % 4) * 2 && p / 9 == k / 4);
        assert(0 <= p && p + 1 < 71);
        assert(texto_fingerprint(h1)[p] == texto_fingerprint(h2)[p]);
        assert(texto_fingerprint(h1)[p + 1] == texto_fingerprint(h2)[p + 1]);
        assert((p + 1) % 9 == (k % 4) * 2 + 1 && (p + 1) / 9 == k / 4);
        assert((p / 9) * 4 + (p % 9) / 2 == k);
        assert((p / 9) * 4 + ((p + 1) % 9) / 2 == k);
        assert(caractere_fingerprint(h1, p) == digito_hex((h1[k] / 16) as int));
        assert(caractere_fingerprint(h2, p) == digito_hex((h2[k] / 16) as int));
        assert(caractere_fingerprint(h1, p + 1) == digito_hex((h1[k] % 16) as int));
        assert(caractere_fingerprint(h2, p + 1) == digito_hex((h2[k] % 16) as int));
        assert(texto_fingerprint(h1)[p] == caractere_fingerprint(h1, p));
        assert(texto_fingerprint(h2)[p] == caractere_fingerprint(h2, p));
        assert(texto_fingerprint(h1)[p + 1] == caractere_fingerprint(h1, p + 1));
        assert(texto_fingerprint(h2)[p + 1] == caractere_fingerprint(h2, p + 1));
        lema_digito_hex_injetivo((h1[k] / 16) as int, (h2[k] / 16) as int);
        lema_digito_hex_injetivo((h1[k] % 16) as int, (h2[k] % 16) as int);
    }
    assert(h1 =~= h2);
}

} // verus!
