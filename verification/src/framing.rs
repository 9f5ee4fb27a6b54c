//! Framing TCP: cada mensagem Noise ocupa um frame `u32` big-endian de
//! comprimento seguido do corpo, com corpo de 1 a 8192 bytes.

use vstd::prelude::*;
use crate::address::{ErroRede, TipoErroRede};

verus! {

pub const MAX_FRAME_BODY: usize = 8192;

/// Prazo fixo, em milissegundos, para um frame chegar depois do primeiro byte.
pub const FRAME_PROGRESS_TIMEOUT_MS: u64 = 15000;

/// Um comprimento de corpo aceito pelo protocolo.
pub open spec fn tamanho_valido(n: int) -> bool {
    1 <= n <= MAX_FRAME_BODY
}

/// Valor de quatro bytes lidos em network byte order.
pub open spec fn valor_big_endian(b: [u8; 4]) -> int {
    b@[0] * 16777216 + b@[1] * 65536 + b@[2] * 256 + b@[3]
}

/// Os quatro bytes big-endian de um valor de 32 bits.
pub open spec fn bytes_big_endian(n: int) -> Seq<u8> {
    seq![(n / 16777216) as u8, ((n / 65536) % 256) as u8, ((n / 256) % 256) as u8, (n % 256) as u8]
}

fn validar_tamanho(tamanho: usize) -> (r: Result<(), ErroRede>)
    ensures
        r.is_ok() == tamanho_valido(tamanho as int),
        r matches Err(e) ==> e.tipo == TipoErroRede::InvalidData,
{
    if !(1 <= tamanho && tamanho <= MAX_FRAME_BODY) {
        return Err(ErroRede::novo(TipoErroRede::InvalidData, "comprimento de frame fora de 1..=8192"));
    }
    Ok(())
}

/// Prefixo de quatro bytes big-endian de um corpo de `tamanho` bytes.
/// Falha com `InvalidData` se o tamanho estiver fora de 1..=8192.
pub fn codificar_tamanho(tamanho: usize) -> (r: Result<[u8; 4], ErroRede>)
    ensures
        r.is_ok() == tamanho_valido(tamanho as int),
        r matches Ok(prefixo) ==> prefixo@ == bytes_big_endian(tamanho as int)
            && valor_big_endian(prefixo) == tamanho,
        r matches Err(e) ==> e.tipo == TipoErroRede::InvalidData,
{
    validar_tamanho(tamanho)?;
    let v: u32 = tamanho as u32;
    let prefixo: [u8; 4] = [
        (v / 16777216) as u8,
        ((v / 65536) % 256) as u8,
        ((v / 256) % 256) as u8,
        (v % 256) as u8,
    ];
    assert(prefixo@ =~= bytes_big_endian(tamanho as int));
    Ok(prefixo)
}

/// Comprimento do corpo anunciado por um prefixo, validado antes de qualquer
/// alocação. Zero ou mais de 8192 falham com `InvalidData`.
pub fn decodificar_tamanho(prefixo: [u8; 4]) -> (r: Result<usize, ErroRede>)
    ensures
        r.is_ok() == tamanho_valido(valor_big_endian(prefixo)),
        r matches Ok(n) ==> n == valor_big_endian(prefixo),
        r matches Err(e) ==> e.tipo == TipoErroRede::InvalidData,
{
    let valor: u32 = (prefixo[0] as u32) * 16777216 + (prefixo[1] as u32) * 65536
        + (prefixo[2] as u32) * 256 + (prefixo[3] as u32);
    if !(1 <= valor && valor <= 8192) {
        return Err(ErroRede::novo(TipoErroRede::InvalidData, "comprimento de frame fora de 1..=8192"));
    }
    Ok(valor as usize)
}

/// Tempo restante até `deadline`, com instantes em milissegundos num relógio
/// monotônico. Um prazo já atingido falha com `TimedOut`.
pub fn tempo_restante(deadline: u64, agora: u64) -> (r: Result<u64, ErroRede>)
    ensures
        r.is_ok() == (agora < deadline),
        r matches Ok(d) ==> d == deadline - agora,
        r matches Err(e) ==> e.tipo == TipoErroRede::TimedOut,
{
    if agora < deadline {
        Ok(deadline - agora)
    } else {
        Err(ErroRede::novo(TipoErroRede::TimedOut, "deadline excedido"))
    }
}

/// Prazo efetivo do restante de um frame cujo primeiro byte chegou em
/// `agora`: o menor entre o prazo da fase e o prazo fixo de progresso.
pub fn prazo_frame(deadline_fase: u64, agora: u64) -> (prazo: u64)
    ensures
        prazo as int == if deadline_fase as int <= agora as int + FRAME_PROGRESS_TIMEOUT_MS as int {
            deadline_fase as int
        } else {
            agora as int + FRAME_PROGRESS_TIMEOUT_MS as int
        },
{
    if deadline_fase <= agora || deadline_fase - agora <= FRAME_PROGRESS_TIMEOUT_MS {
        deadline_fase
    } else {
        agora + FRAME_PROGRESS_TIMEOUT_MS
    }
}

/// O que uma chamada de `read` ou `write` no socket devolveu.
#[derive(Clone, Copy, Debug, PartialEq, Eq, Structural)]
pub enum RetornoEs {
    /// Quantidade de bytes transferidos (zero é fim da conexão).
    Bytes(usize),
    /// Chamada interrompida por sinal antes de transferir algo.
    Interrompido,
    /// Tempo limite do socket esgotado (`TimedOut` ou `WouldBlock`).
    SemTempo,
    /// Qualquer outro erro, repassado como veio.
    Erro,
}

/// Próximo passo de um laço que lê ou escreve um trecho exato.
pub enum PassoEs {
    Avancar(usize),
    Repetir,
    Falhar(ErroRede),
    Propagar,
}

/// O passo é falhar com o tipo e a mensagem dados.
pub open spec fn falha_es(passo: PassoEs, tipo: TipoErroRede, mensagem: Seq<char>) -> bool {
    passo matches PassoEs::Falhar(e) && e.tipo == tipo && e.mensagem@ == mensagem
}

/// Passo da leitura exata: zero bytes é fim da conexão antes do trecho
/// (`UnexpectedEof` com a mensagem dada); prazo esgotado é `TimedOut`.
pub fn passo_leitura(retorno: RetornoEs, mensagem_eof: &'static str) -> (passo: PassoEs)
    ensures
        match retorno {
            RetornoEs::Bytes(n) => if n == 0 {
                falha_es(passo, TipoErroRede::UnexpectedEof, mensagem_eof@)
            } else {
                passo == PassoEs::Avancar(n)
            },
            RetornoEs::Interrompido => passo is Repetir,
            RetornoEs::SemTempo => falha_es(passo, TipoErroRede::TimedOut, "deadline de leitura do frame excedido"@),
            RetornoEs::Erro => passo is Propagar,
        },
{
    match retorno {
        RetornoEs::Bytes(n) => if n == 0 {
            PassoEs::Falhar(ErroRede::novo(TipoErroRede::UnexpectedEof, mensagem_eof))
        } else {
            PassoEs::Avancar(n)
        },
        RetornoEs::Interrompido => PassoEs::Repetir,
        RetornoEs::SemTempo => PassoEs::Falhar(
            ErroRede::novo(TipoErroRede::TimedOut, "deadline de leitura do frame excedido"),
        ),
        RetornoEs::Erro => PassoEs::Propagar,
    }
}

/// Passo da escrita exata: zero bytes escritos é `WriteZero`; prazo
/// esgotado é `TimedOut`.
pub fn passo_escrita(retorno: RetornoEs) -> (passo: PassoEs)
    ensures
        match retorno {
            RetornoEs::Bytes(n) => if n == 0 {
                falha_es(passo, TipoErroRede::WriteZero, "não foi possível concluir a escrita do frame"@)
            } else {
                passo == PassoEs::Avancar(n)
            },
            RetornoEs::Interrompido => passo is Repetir,
            RetornoEs::SemTempo => falha_es(passo, TipoErroRede::TimedOut, "deadline de escrita do frame excedido"@),
            RetornoEs::Erro => passo is Propagar,
        },
{
    match retorno {
        RetornoEs::Bytes(n) => if n == 0 {
            PassoEs::Falhar(ErroRede::novo(TipoErroRede::WriteZero, "não foi possível concluir a escrita do frame"))
        } else {
            PassoEs::Avancar(n)
        },
        RetornoEs::Interrompido => PassoEs::Repetir,
        RetornoEs::SemTempo => PassoEs::Falhar(
            ErroRede::novo(TipoErroRede::TimedOut, "deadline de escrita do frame excedido"),
        ),
        RetornoEs::Erro => PassoEs::Propagar,
    }
}

/// O prefixo está em network byte order: para qualquer tamanho válido os dois
/// primeiros bytes são zero, o terceiro é o byte alto e o quarto o byte
/// baixo do tamanho; e um prefixo só é aceito com tamanho de 1 a 8192.
pub proof fn lei_prefixo_em_network_byte_order(tamanho: int, prefixo: [u8; 4])
    requires
        1 <= tamanho <= 8192,
    ensures
        bytes_big_endian(tamanho)[0] == 0,
        bytes_big_endian(tamanho)[1] == 0,
        bytes_big_endian(tamanho)[2] * 256 + bytes_big_endian(tamanho)[3] == tamanho,
        bytes_big_endian(tamanho)[3] == tamanho % 256,
        tamanho_valido(valor_big_endian(prefixo)) <==> 1 <= prefixo[0] as int * 16777216 + prefixo[1] as int
            * 65536 + prefixo[2] as int * 256 + prefixo[3] as int <= 8192,
{
    assert(tamanho / 16777216 == 0 && (tamanho / 65536) % 256 == 0);
    assert(((tamanho / 256) % 256) * 256 + tamanho % 256 == tamanho);
}

/// O prefixo codificado de um tamanho válido decodifica para o mesmo tamanho,
/// e um prefixo aceito é o único que codifica o seu tamanho.
pub proof fn lei_prefixo_ida_e_volta(tamanho: int, prefixo: [u8; 4])
    requires
        tamanho_valido(tamanho),
    ensures
        prefixo@ == bytes_big_endian(tamanho) ==> valor_big_endian(prefixo) == tamanho,
        valor_big_endian(prefixo) == tamanho ==> prefixo@ == bytes_big_endian(tamanho),
{
    let (b0, b1, b2, b3) = (prefixo@[0] as int, prefixo@[1] as int, prefixo@[2] as int, prefixo@[3] as int);
    if valor_big_endian(prefixo) == tamanho {
        assert(b0 == 0 && b1 == 0) by (nonlinear_arith)
            requires
                0 <= b0 < 256, 0 <= b1 < 256, 0 <= b2 < 256, 0 <= b3 < 256,
                b0 * 16777216 + b1 * 65536 + b2 * 256 + b3 <= 8192;
        assert(tamanho / 256 == b2 && tamanho % 256 == b3) by (nonlinear_arith)
            requires
                0 <= b2 < 256, 0 <= b3 < 256, tamanho == b2 * 256 + b3;
        assert(prefixo@ =~= bytes_big_endian(tamanho));
    }
}

} // verus!
