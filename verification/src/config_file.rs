//! The configuration file of a virtual machine: what it declares, and the
//! text that the virtualization tool reads.

use vstd::prelude::*;
use vstd::string::*;

verus! {

/// A port of the guest that is reachable through a port of the host.
#[derive(Clone, Copy, Debug, PartialEq, Eq, Structural)]
pub struct PortForward {
    pub guest: u16,
    pub host: u16,
}

/// What a configuration file declares.
#[derive(Clone, Debug, PartialEq, Eq)]
pub struct VmConfig {
    /// The base image, as the tool knows it.
    pub image: String,
    /// The forwarded ports, in the order in which they are declared.
    pub forwarded_ports: Vec<PortForward>,
    /// The directory of the host that the guest sees.
    pub host_dir: String,
    /// Where the guest sees it.
    pub guest_dir: String,
}

/// The mathematical content of a [`VmConfig`].
pub struct VmConfigView {
    pub image: Seq<char>,
    pub forwarded_ports: Seq<PortForward>,
    pub host_dir: Seq<char>,
    pub guest_dir: Seq<char>,
}

impl View for VmConfig {
    type V = VmConfigView;

    open spec fn view(&self) -> VmConfigView {
        VmConfigView {
            image: self.image@,
            forwarded_ports: self.forwarded_ports@,
            host_dir: self.host_dir@,
            guest_dir: self.guest_dir@,
        }
    }
}

/// The name of the configuration file inside a machine's directory.
pub open spec fn config_file_name_text() -> Seq<char> {
    "Vagrantfile"@
}

/// The directory of the guest in which the synced folder appears.
pub open spec fn guest_sync_dir() -> Seq<char> {
    "/home/vagrant/sync"@
}

/// The ports that every machine forwards: web traffic, plain and encrypted.
pub open spec fn standard_ports() -> Seq<PortForward> {
    seq![PortForward { guest: 80, host: 80 }, PortForward { guest: 443, host: 443 }]
}

/// The configuration of a machine made from `image` while the launcher
/// runs in `working_dir`.
pub open spec fn standard_config(image: Seq<char>, working_dir: Seq<char>) -> VmConfigView {
    VmConfigView {
        image,
        forwarded_ports: standard_ports(),
        host_dir: working_dir,
        guest_dir: guest_sync_dir(),
    }
}

/// The character of a decimal digit.
pub open spec fn digit_char(d: nat) -> char {
    if d == 0 {
        '0'
    } else if d == 1 {
        '1'
    } else if d == 2 {
        '2'
    } else if d == 3 {
        '3'
    } else if d == 4 {
        '4'
    } else if d == 5 {
        '5'
    } else if d == 6 {
        '6'
    } else if d == 7 {
        '7'
    } else if d == 8 {
        '8'
    } else {
        '9'
    }
}

/// A number in decimal, without leading zeros.
pub open spec fn decimal(n: nat) -> Seq<char>
    decreases n,
{
    if n < 10 {
        seq![digit_char(n)]
    } else {
        decimal(n / 10).push(digit_char(n % 10))
    }
}

/// The line that declares one forwarded port.
pub open spec fn port_line(port: PortForward) -> Seq<char> {
    "      config.vm.network 'forwarded_port', guest: "@ + decimal(port.guest as nat)
        + ", host: "@ + decimal(port.host as nat) + "\n"@
}

/// The lines that declare the forwarded ports, one line each, in order.
pub open spec fn port_lines(ports: Seq<PortForward>) -> Seq<char>
    decreases ports.len(),
{
    if ports.len() == 0 {
        Seq::empty()
    } else {
        port_lines(ports.drop_last()) + port_line(ports.last())
    }
}

/// The text of the configuration file: the schema version, the base
/// image, a comment that more ports are to follow, the forwarded ports and
/// the synced folder. The image and the two directories stand in it as
/// they are, between single quotes, neither escaped nor checked.
pub open spec fn config_text(config: VmConfigView) -> Seq<char> {
    "\n    Vagrant.configure('2') do |config|\n      config.vm.box = '"@ + config.image
        + "'\n\n      # TODO forward all ports\n"@ + port_lines(config.forwarded_ports)
        + "\n      config.vm.synced_folder '"@ + config.host_dir + "', '"@ + config.guest_dir
        + "'\n    end\n  "@
}

/// The decimal texts of the two standard ports.
pub proof fn lemma_standard_port_numbers()
    ensures
        decimal(80) == "80"@,
        decimal(443) == "443"@,
{
    reveal_strlit("80");
    reveal_strlit("443");
    reveal_with_fuel(decimal, 3);
    assert(decimal(80) =~= "80"@);
    assert(decimal(443) =~= "443"@);
}

/// Whatever the image, the standard configuration file declares the image
/// verbatim, then exactly two forwarded ports, 80 to 80 and 443 to 443,
/// then exactly one synced folder, from the working directory to the
/// guest's sync directory.
pub proof fn lemma_standard_text(image: Seq<char>, working_dir: Seq<char>)
    ensures
        standard_config(image, working_dir).forwarded_ports == seq![
            PortForward { guest: 80, host: 80 },
            PortForward { guest: 443, host: 443 },
        ],
        config_text(standard_config(image, working_dir))
            == "\n    Vagrant.configure('2') do |config|\n      config.vm.box = '"@ + image
            + "'\n\n      # TODO forward all ports\n"@
            + "      config.vm.network 'forwarded_port', guest: "@ + "80"@ + ", host: "@ + "80"@
            + "\n"@ + "      config.vm.network 'forwarded_port', guest: "@ + "443"@ + ", host: "@
            + "443"@ + "\n"@ + "\n      config.vm.synced_folder '"@ + working_dir + "', '"@
            + "/home/vagrant/sync"@ + "'\n    end\n  "@,
{
    lemma_standard_port_numbers();
    let ports = standard_ports();
    let first = PortForward { guest: 80, host: 80 };
    let second = PortForward { guest: 443, host: 443 };
    assert(ports.drop_last() =~= seq![first]);
    assert(seq![first].drop_last() =~= Seq::<PortForward>::empty());
    reveal_with_fuel(port_lines, 3);
    assert(port_lines(ports) =~= port_line(first) + port_line(second));
    assert(config_text(standard_config(image, working_dir))
        =~= "\n    Vagrant.configure('2') do |config|\n      config.vm.box = '"@ + image
        + "'\n\n      # TODO forward all ports\n"@
        + "      config.vm.network 'forwarded_port', guest: "@ + "80"@ + ", host: "@ + "80"@
        + "\n"@ + "      config.vm.network 'forwarded_port', guest: "@ + "443"@ + ", host: "@
        + "443"@ + "\n"@ + "\n      config.vm.synced_folder '"@ + working_dir + "', '"@
        + "/home/vagrant/sync"@ + "'\n    end\n  "@);
}

/// The name of the configuration file inside a machine's directory.
pub fn config_file_name() -> (r: &'static str)
    ensures
        r@ == config_file_name_text(),
{
    "Vagrantfile"
}

/// One decimal digit as text.
fn digit_text(d: u16) -> (r: &'static str)
    requires
        d < 10,
    ensures
        r@ == seq![digit_char(d as nat)],
{
    proof {
        reveal_strlit("0");
        reveal_strlit("1");
        reveal_strlit("2");
        reveal_strlit("3");
        reveal_strlit("4");
        reveal_strlit("5");
        reveal_strlit("6");
        reveal_strlit("7");
        reveal_strlit("8");
        reveal_strlit("9");
    }
    let r = match d {
        0 => "0",
        1 => "1",
        2 => "2",
        3 => "3",
        4 => "4",
        5 => "5",
        6 => "6",
        7 => "7",
        8 => "8",
        _ => "9",
    };
    assert(r@ =~= seq![digit_char(d as nat)]);
    r
}

/// Writes a number in decimal.
pub fn decimal_string(n: u16) -> (r: String)
    ensures
        r@ == decimal(n as nat),
    decreases n,
{
    if n < 10 {
        String::from_str(digit_text(n))
    } else {
        let r = decimal_string(n / 10).concat(digit_text(n % 10));
        assert(r@ =~= decimal(n as nat));
        r
    }
}

/// Writes the line that declares one forwarded port.
pub fn render_port(port: PortForward) -> (r: String)
    ensures
        r@ == port_line(port),
{
    let guest = decimal_string(port.guest);
    let host = decimal_string(port.host);
    String::from_str("      config.vm.network 'forwarded_port', guest: ").concat(
        guest.as_str(),
    ).concat(", host: ").concat(host.as_str()).concat("\n")
}

impl VmConfig {
    /// The configuration of a machine made from `image` while the launcher
    /// runs in `working_dir`. Whatever the image, it forwards the two web
    /// ports and shares the working directory with the guest.
    pub fn standard(image: &str, working_dir: &str) -> (r: VmConfig)
        ensures
            r@ == standard_config(image@, working_dir@),
    {
        let mut ports: Vec<PortForward> = Vec::new();
        ports.push(PortForward { guest: 80, host: 80 });
        ports.push(PortForward { guest: 443, host: 443 });
        assert(ports@ =~= standard_ports());
        VmConfig {
            image: String::from_str(image),
            forwarded_ports: ports,
            host_dir: String::from_str(working_dir),
            guest_dir: String::from_str("/home/vagrant/sync"),
        }
    }

    /// Writes the text of the configuration file.
    pub fn render(&self) -> (r: String)
        ensures
            r@ == config_text(self@),
    {
        let mut out = String::from_str(
            "\n    Vagrant.configure('2') do |config|\n      config.vm.box = '",
        ).concat(self.image.as_str()).concat("'\n\n      # TODO forward all ports\n");
        let ghost head = out@;
        let n: usize = self.forwarded_ports.len();
        let mut i: usize = 0;
        while i < n
            invariant
                n == self.forwarded_ports@.len(),
                i <= n,
                out@ == head + port_lines(self.forwarded_ports@.take(i as int)),
            decreases n - i,
        {
            let line = render_port(self.forwarded_ports[i]);
            out = out.concat(line.as_str());
            proof {
                let before = self.forwarded_ports@.take(i as int);
                let after = self.forwarded_ports@.take(i + 1);
                assert(after.drop_last() =~= before);
                assert(after.last() == self.forwarded_ports@[i as int]);
                assert(out@ =~= head + port_lines(after));
            }
            i += 1;
        }
        assert(self.forwarded_ports@.take(n as int) =~= self.forwarded_ports@);
        out.concat("\n      config.vm.synced_folder '").concat(self.host_dir.as_str()).concat(
            "', '",
        ).concat(self.guest_dir.as_str()).concat("'\n    end\n  ")
    }
}

/// Writes the configuration file of a machine made from `image` while the
/// launcher runs in `working_dir`.
pub fn standard_config_text(image: &str, working_dir: &str) -> (r: String)
    ensures
        r@ == config_text(standard_config(image@, working_dir@)),
{
    VmConfig::standard(image, working_dir).render()
}

} // verus!
