use vstd::prelude::*;
use vstd::string::StringExecFns;

verus! {

/// The entries that block `sites`, one line per domain, in order, each
/// mapping the domain to the loopback address.
pub open spec fn block_entries(sites: Seq<String>) -> Seq<char>
    decreases sites.len(),
{
    if sites.len() == 0 {
        Seq::empty()
    } else {
        block_entries(sites.drop_last()) + "127.0.0.1  "@ + sites.last()@ + "\n"@
    }
}

/// The host file once the block is engaged: its former text, a blank
/// separator line, then the entries.
pub open spec fn engaged(hosts: Seq<char>, sites: Seq<String>) -> Seq<char> {
    hosts + "\n"@ + block_entries(sites)
}

/// The text of the host file with the block engaged on top of `hosts`.
pub fn engage_content(hosts: &String, sites: &Vec<String>) -> (r: String)
    ensures
        r@ == engaged(hosts@, sites@),
{
    let mut out = hosts.clone();
    out.append("\n");
    let mut i: usize = 0;
    while i < sites.len()
        invariant
            i <= sites.len(),
            out@ == hosts@ + "\n"@ + block_entries(sites@.subrange(0, i as int)),
        decreases sites.len() - i,
    {
        out.append("127.0.0.1  ");
        out.append(sites[i].as_str());
        out.append("\n");
        proof {
            let next = sites@.subrange(0, i + 1);
            assert(next.drop_last() =~= sites@.subrange(0, i as int));
            assert(next.last() == sites@[i as int]);
        }
        i = i + 1;
    }
    assert(sites@.subrange(0, sites.len() as int) =~= sites@);
    out
}

/// The text of the host file once the block is reverted: the backup taken
/// before it was engaged.
pub fn revert_content(backup: &String) -> (r: String)
    ensures
        r@ == backup@,
{
    backup.clone()
}

/// Engaging keeps the former text, unchanged, as a prefix of the new one,
/// so a backup of the text taken before engaging is exactly that prefix.
pub proof fn lemma_revert_restores(hosts: Seq<char>, sites: Seq<String>)
    ensures
        engaged(hosts, sites).subrange(0, hosts.len() as int) == hosts,
        engaged(hosts, sites).len() >= hosts.len(),
{
    assert(engaged(hosts, sites).subrange(0, hosts.len() as int) =~= hosts);
}

} // verus!
