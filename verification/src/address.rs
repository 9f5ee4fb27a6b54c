//! Modo de execução, papel Noise, validação de endereços locais e
//! classificação pública de erros de rede.

use vstd::prelude::*;

verus! {

/// Modo escolhido na linha de comando.
#[derive(Clone, Copy, Debug, PartialEq, Eq, Structural)]
pub enum ModoExecucao {
    Listen,
    Connect,
}

/// Papel do peer no handshake Noise.
#[derive(Clone, Copy, Debug, PartialEq, Eq, Structural)]
pub enum PapelNoise {
    Initiator,
    Responder,
}

/// O conector é sempre iniciador e o listener sempre respondedor.
pub open spec fn papel_do_modo(modo: ModoExecucao) -> PapelNoise {
    match modo {
        ModoExecucao::Listen => PapelNoise::Responder,
        ModoExecucao::Connect => PapelNoise::Initiator,
    }
}

impl ModoExecucao {
    pub fn papel_noise(self) -> (papel: PapelNoise)
        ensures
            papel == papel_do_modo(self),
    {
        match self {
            ModoExecucao::Listen => PapelNoise::Responder,
            ModoExecucao::Connect => PapelNoise::Initiator,
        }
    }
}

} // verus!

verus! {

/// Endereço IP local ou porta inválidos, ou modo desconhecido.
#[derive(Clone, Copy, Debug, PartialEq, Eq, Structural)]
pub struct ErroEndereco;

/// Compara duas sequências de bytes elemento a elemento.
pub fn bytes_iguais(a: &[u8], b: &[u8]) -> (iguais: bool)
    ensures
        iguais == (a@ == b@),
{
    if a.len() != b.len() {
        return false;
    }
    let mut i: usize = 0;
    while i < a.len()
        invariant
            a@.len() == b@.len(),
            i <= a@.len(),
            forall|j: int| 0 <= j < i ==> a@[j] == b@[j],
        decreases a@.len() - i,
    {
        if a[i] != b[i] {
            return false;
        }
        i = i + 1;
    }
    assert(a@ =~= b@);
    true
}

/// Compara dois textos pelo conteúdo.
pub fn textos_iguais(a: &str, b: &str) -> (iguais: bool)
    ensures
        iguais == (a@ == b@),
{
    let iguais = bytes_iguais(a.as_bytes(), b.as_bytes());
    proof {
        vstd::utf8::encode_utf8_decode_utf8(a@);
        vstd::utf8::encode_utf8_decode_utf8(b@);
    }
    iguais
}

/// O modo correspondente a um argumento exato da linha de comando.
pub open spec fn modo_do_texto(valor: Seq<char>) -> Option<ModoExecucao> {
    if valor == "listen"@ {
        Some(ModoExecucao::Listen)
    } else if valor == "connect"@ {
        Some(ModoExecucao::Connect)
    } else {
        None
    }
}

/// Interpreta o modo da linha de comando: somente `listen` e `connect`,
/// sem normalização de caixa ou espaços.
pub fn analisar_modo(valor: &str) -> (modo: Result<ModoExecucao, ErroEndereco>)
    ensures
        match modo_do_texto(valor@) {
            Some(esperado) => modo == Ok::<ModoExecucao, ErroEndereco>(esperado),
            None => modo.is_err(),
        },
{
    if textos_iguais(valor, "listen") {
        Ok(ModoExecucao::Listen)
    } else if textos_iguais(valor, "connect") {
        Ok(ModoExecucao::Connect)
    } else {
        Err(ErroEndereco)
    }
}

/// Só o texto exato `listen` escolhe o modo que escuta, e esse lado é o
/// respondedor Noise; só `connect` escolhe o modo que conecta, e esse lado é
/// o iniciador; qualquer outro texto é recusado.
pub proof fn lei_modos_e_papeis(t: Seq<char>)
    ensures
        modo_do_texto(t) == Some(ModoExecucao::Listen) <==> t == "listen"@,
        modo_do_texto(t) == Some(ModoExecucao::Connect) <==> t == "connect"@,
        modo_do_texto(t) is None <==> t != "listen"@ && t != "connect"@,
        papel_do_modo(ModoExecucao::Listen) == PapelNoise::Responder,
        papel_do_modo(ModoExecucao::Connect) == PapelNoise::Initiator,
{
    reveal_strlit("listen");
    reveal_strlit("connect");
    assert("listen"@.len() != "connect"@.len());
}

impl std::str::FromStr for ModoExecucao {
    type Err = ErroEndereco;

    fn from_str(valor: &str) -> (modo: Result<Self, Self::Err>)
        ensures
            match modo_do_texto(valor@) {
                Some(esperado) => modo == Ok::<ModoExecucao, ErroEndereco>(esperado),
                None => modo.is_err(),
            },
    {
        analisar_modo(valor)
    }
}

} // verus!

verus! {

/// Endereço de socket numérico já separado em IP e porta.
#[derive(Clone, Copy, Debug, PartialEq, Eq)]
pub enum EnderecoLocal {
    V4 { octetos: [u8; 4], porta: u16 },
    V6 { segmentos: [u16; 8], porta: u16 },
}

/// 127.0.0.0/8.
pub open spec fn ipv4_loopback(o: [u8; 4]) -> bool {
    o@[0] == 127
}

/// Faixas privadas da RFC 1918: 10/8, 172.16/12 e 192.168/16.
pub open spec fn ipv4_privado(o: [u8; 4]) -> bool {
    ||| o@[0] == 10
    ||| (o@[0] == 172 && 16 <= o@[1] <= 31)
    ||| (o@[0] == 192 && o@[1] == 168)
}

/// `::1`.
pub open spec fn ipv6_loopback(s: [u16; 8]) -> bool {
    &&& s@[0] == 0 && s@[1] == 0 && s@[2] == 0 && s@[3] == 0
    &&& s@[4] == 0 && s@[5] == 0 && s@[6] == 0 && s@[7] == 1
}

/// Unique local addresses, fc00::/7.
pub open spec fn ipv6_ula(s: [u16; 8]) -> bool {
    0xfc00 <= s@[0] <= 0xfdff
}

pub open spec fn porta_do_endereco(e: EnderecoLocal) -> u16 {
    match e {
        EnderecoLocal::V4 { porta, .. } => porta,
        EnderecoLocal::V6 { porta, .. } => porta,
    }
}

/// Somente loopback, IPv4 privado e IPv6 ULA são aceitos.
pub open spec fn ip_local_permitido(e: EnderecoLocal) -> bool {
    match e {
        EnderecoLocal::V4 { octetos, .. } => ipv4_loopback(octetos) || ipv4_privado(octetos),
        EnderecoLocal::V6 { segmentos, .. } => ipv6_loopback(segmentos) || ipv6_ula(segmentos),
    }
}

/// Um endereço local é aceito quando a porta não é zero e o IP é permitido.
pub open spec fn endereco_aceito(e: EnderecoLocal) -> bool {
    porta_do_endereco(e) != 0 && ip_local_permitido(e)
}

fn ipv4_e_loopback(o: [u8; 4]) -> (r: bool)
    ensures
        r == ipv4_loopback(o),
{
    o[0] == 127
}

fn ipv4_e_privado(o: [u8; 4]) -> (r: bool)
    ensures
        r == ipv4_privado(o),
{
    let a = o[0];
    let b = o[1];
    assert((b & 0xf0) == 16u8 <==> (16 <= b && b <= 31)) by (bit_vector);
    a == 10 || (a == 172 && (b & 0xf0) == 16) || (a == 192 && b == 168)
}

fn ipv6_e_loopback(s: [u16; 8]) -> (r: bool)
    ensures
        r == ipv6_loopback(s),
{
    s[0] == 0 && s[1] == 0 && s[2] == 0 && s[3] == 0 && s[4] == 0 && s[5] == 0 && s[6] == 0
        && s[7] == 1
}

fn ipv6_e_ula(s: [u16; 8]) -> (r: bool)
    ensures
        r == ipv6_ula(s),
{
    let primeiro = s[0];
    assert((primeiro & 0xfe00) == 0xfc00u16 <==> (0xfc00 <= primeiro && primeiro <= 0xfdff))
        by (bit_vector);
    (primeiro & 0xfe00) == 0xfc00
}

fn ip_permitido(e: &EnderecoLocal) -> (r: bool)
    ensures
        r == ip_local_permitido(*e),
{
    match e {
        EnderecoLocal::V4 { octetos, .. } => ipv4_e_loopback(*octetos) || ipv4_e_privado(*octetos),
        EnderecoLocal::V6 { segmentos, .. } => ipv6_e_loopback(*segmentos) || ipv6_e_ula(
            *segmentos,
        ),
    }
}

/// Um endereço IPv4 com porta não nula é aceito exatamente quando está em
/// 127.0.0.0/8 (loopback) ou num bloco privado da RFC 1918: 10.0.0.0/8,
/// 172.16.0.0/12 (de 172.16 a 172.31) ou 192.168.0.0/16. Porta zero nunca é
/// aceita.
pub proof fn lei_ipv4_local(o: [u8; 4], porta: u16)
    ensures
        endereco_aceito(EnderecoLocal::V4 { octetos: o, porta }) <==> porta != 0 && {
            ||| o[0] == 127
            ||| o[0] == 10
            ||| (o[0] == 172 && 16 <= o[1] && o[1] <= 31)
            ||| (o[0] == 192 && o[1] == 168)
        },
{
}

/// Um endereço IPv6 com porta não nula é aceito exatamente quando é `::1`
/// ou está em fc00::/7 (primeiro segmento de 0xfc00 a 0xfdff).
pub proof fn lei_ipv6_local(s: [u16; 8], porta: u16)
    ensures
        endereco_aceito(EnderecoLocal::V6 { segmentos: s, porta }) <==> porta != 0 && {
            ||| (s[0] == 0 && s[1] == 0 && s[2] == 0 && s[3] == 0 && s[4] == 0 && s[5] == 0 && s[6] == 0
                && s[7] == 1)
            ||| (0xfc00 <= s[0] && s[0] <= 0xfdff)
        },
{
}

/// Aceita somente endereços numéricos locais com porta diferente de zero.
pub fn validar_endereco_local(endereco: EnderecoLocal) -> (r: Result<(), ErroEndereco>)
    ensures
        r.is_ok() == endereco_aceito(endereco),
{
    let porta = match endereco {
        EnderecoLocal::V4 { porta, .. } => porta,
        EnderecoLocal::V6 { porta, .. } => porta,
    };
    if porta == 0 || !ip_permitido(&endereco) {
        return Err(ErroEndereco);
    }
    Ok(())
}

} // verus!

verus! {

/// Categorias de erro de rede que a aplicação distingue.
#[derive(Clone, Copy, Debug, PartialEq, Eq, Structural)]
pub enum TipoErroRede {
    ConnectionRefused,
    TimedOut,
    InvalidInput,
    AddrInUse,
    AddrNotAvailable,
    NetworkUnreachable,
    HostUnreachable,
    InvalidData,
    UnexpectedEof,
    WriteZero,
    Other,
}

/// Erro de rede com categoria e mensagem fixa, sem contexto sensível.
#[derive(Clone, Copy, Debug)]
pub struct ErroRede {
    pub tipo: TipoErroRede,
    pub mensagem: &'static str,
}

impl ErroRede {
    pub fn novo(tipo: TipoErroRede, mensagem: &'static str) -> (erro: ErroRede)
        ensures
            erro.tipo == tipo,
            erro.mensagem@ == mensagem@,
    {
        ErroRede { tipo, mensagem }
    }

    pub fn kind(&self) -> (tipo: TipoErroRede)
        ensures
            tipo == self.tipo,
    {
        self.tipo
    }

    pub fn mensagem(&self) -> (mensagem: &'static str)
        ensures
            mensagem@ == self.mensagem@,
    {
        self.mensagem
    }
}

/// Mensagem pública de cada categoria de erro de rede.
pub open spec fn mensagem_publica(tipo: TipoErroRede) -> Seq<char> {
    match tipo {
        TipoErroRede::ConnectionRefused => "conexão recusada pelo peer"@,
        TipoErroRede::TimedOut => "operação de rede excedeu o tempo limite"@,
        TipoErroRede::InvalidInput => "endereço ou parâmetro de rede inválido"@,
        TipoErroRede::AddrInUse => "endereço ou porta já está em uso"@,
        TipoErroRede::AddrNotAvailable => "endereço não está disponível nesta máquina"@,
        TipoErroRede::NetworkUnreachable => "rede inacessível"@,
        TipoErroRede::HostUnreachable => "host inacessível"@,
        _ => "falha de rede"@,
    }
}

/// Mensagem curta, sem detalhes do sistema, para um erro de rede.
pub fn mensagem_erro_rede(erro: &ErroRede) -> (mensagem: &'static str)
    ensures
        mensagem@ == mensagem_publica(erro.tipo),
{
    match erro.tipo {
        TipoErroRede::ConnectionRefused => "conexão recusada pelo peer",
        TipoErroRede::TimedOut => "operação de rede excedeu o tempo limite",
        TipoErroRede::InvalidInput => "endereço ou parâmetro de rede inválido",
        TipoErroRede::AddrInUse => "endereço ou porta já está em uso",
        TipoErroRede::AddrNotAvailable => "endereço não está disponível nesta máquina",
        TipoErroRede::NetworkUnreachable => "rede inacessível",
        TipoErroRede::HostUnreachable => "host inacessível",
        _ => "falha de rede",
    }
}

/// Mesmo tipo de erro, com a mensagem detalhada trocada pela pública.
pub fn erro_publico_rede(erro: ErroRede) -> (publico: ErroRede)
    ensures
        publico.tipo == erro.tipo,
        publico.mensagem@ == mensagem_publica(erro.tipo),
{
    ErroRede { tipo: erro.tipo, mensagem: mensagem_erro_rede(&erro) }
}

} // verus!
