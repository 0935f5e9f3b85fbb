//! Text: numbers can be read back, and messages hold what they are about.

use vstd::prelude::*;

use crate::config::ConfigView;
use crate::error::ProxyErrorView;
use crate::text::decimal;

verus! {

/// The number that a text of decimal digits stands for.
pub open spec fn value_of(text: Seq<char>) -> int
    decreases text.len(),
{
    if text.len() == 0 {
        0
    } else {
        value_of(text.drop_last()) * 10 + (text.last() as int - '0' as int)
    }
}

/// A number in decimal can be read back. It consists of digits, at least one, and has no
/// leading zero.
pub proof fn law_decimal_can_be_read_back(n: nat)
    ensures
        value_of(decimal(n)) == n,
        decimal(n).len() > 0,
        forall|i: int|
            0 <= i < decimal(n).len() ==> '0' as int <= (#[trigger] decimal(n)[i]) as int
                <= '9' as int,
        n > 0 ==> decimal(n)[0] != '0',
        n == 0 ==> decimal(n).len() == 1,
    decreases n,
{
    reveal_with_fuel(value_of, 2);
    if n >= 10 {
        law_decimal_can_be_read_back(n / 10);
        assert(decimal(n).drop_last() =~= decimal(n / 10));
    } else {
        assert(decimal(n).drop_last() =~= Seq::<char>::empty());
    }
}

/// The message of an error ends with what the error holds, behind a beginning that does not
/// depend on it.
pub proof fn law_error_messages_hold_the_detail(detail: Seq<char>)
    ensures
        ({
            let none = Seq::<char>::empty();
            &&& ProxyErrorView::Io(detail).text() == ProxyErrorView::Io(none).text() + detail
            &&& ProxyErrorView::AddrParse(detail).text() == ProxyErrorView::AddrParse(none).text()
                + detail
            &&& ProxyErrorView::SessionNotFound(detail).text() == ProxyErrorView::SessionNotFound(
                none,
            ).text() + detail
            &&& ProxyErrorView::InvalidProtocol(detail).text() == ProxyErrorView::InvalidProtocol(
                none,
            ).text() + detail
            &&& ProxyErrorView::Transport(detail).text() == ProxyErrorView::Transport(none).text()
                + detail
            &&& ProxyErrorView::SessionExists(detail).text() == ProxyErrorView::SessionExists(
                none,
            ).text() + detail
            &&& ProxyErrorView::InvalidConfig(detail).text() == ProxyErrorView::InvalidConfig(
                none,
            ).text() + detail
        }),
{
    let none = Seq::<char>::empty();
    assert(ProxyErrorView::Io(detail).text() =~= ProxyErrorView::Io(none).text() + detail);
    assert(ProxyErrorView::AddrParse(detail).text() =~= ProxyErrorView::AddrParse(none).text()
        + detail);
    assert(ProxyErrorView::SessionNotFound(detail).text() =~= ProxyErrorView::SessionNotFound(
        none,
    ).text() + detail);
    assert(ProxyErrorView::InvalidProtocol(detail).text() =~= ProxyErrorView::InvalidProtocol(
        none,
    ).text() + detail);
    assert(ProxyErrorView::Transport(detail).text() =~= ProxyErrorView::Transport(none).text()
        + detail);
    assert(ProxyErrorView::SessionExists(detail).text() =~= ProxyErrorView::SessionExists(
        none,
    ).text() + detail);
    assert(ProxyErrorView::InvalidConfig(detail).text() =~= ProxyErrorView::InvalidConfig(
        none,
    ).text() + detail);
}

/// The kinds of errors can be told apart by their messages: each begins in its own way.
pub proof fn law_error_messages_name_the_kind(detail: Seq<char>)
    ensures
        ProxyErrorView::Io(detail).text() == "IO error: "@ + detail,
        ProxyErrorView::AddrParse(detail).text() == "Address parse error: "@ + detail,
        ProxyErrorView::SessionNotFound(detail).text() == "Session not found: "@ + detail,
        ProxyErrorView::InvalidProtocol(detail).text() == "Invalid protocol: "@ + detail,
        ProxyErrorView::Transport(detail).text() == "Transport error: "@ + detail,
        ProxyErrorView::ConnectionTimeout.text() == "Connection timeout"@,
        ProxyErrorView::SessionExists(detail).text() == "Session already exists: "@ + detail,
        ProxyErrorView::InvalidConfig(detail).text() == "Invalid configuration: "@ + detail,
{
}

/// The address of the control server, as text, gives the configured address and port back: they
/// stand before and behind a colon.
pub proof fn law_control_address_holds_address_and_port(config: ConfigView)
    ensures
        ({
            let address = config.server.grpc_listen_address;
            let text = config.grpc_address();
            let n = address.len() as int;
            &&& text.len() > n + 1
            &&& text.take(n) == address
            &&& text[n] == ':'
            &&& value_of(text.skip(n + 1)) == config.server.grpc_listen_port
        }),
{
    reveal_strlit(":");
    let address = config.server.grpc_listen_address;
    let port = decimal(config.server.grpc_listen_port as nat);
    let text = config.grpc_address();
    law_decimal_can_be_read_back(config.server.grpc_listen_port as nat);
    assert(text.take(address.len() as int) =~= address);
    assert(text.skip(address.len() as int + 1) =~= port);
}

/// Where nothing is configured, the control server listens on port 50051 of all interfaces, and
/// the log goes to five files of 100 MB.
pub proof fn law_standard_configuration()
    ensures
        ConfigView::standard().server.grpc_listen_address == "[::]"@,
        ConfigView::standard().server.grpc_listen_port == 50051,
        ConfigView::standard().logging.file_enabled,
        ConfigView::standard().logging.directory == "./logs"@,
        ConfigView::standard().logging.file_prefix == "rtpproxy"@,
        ConfigView::standard().logging.max_file_size == 100,
        ConfigView::standard().logging.max_log_files == 5,
{
}

} // verus!
