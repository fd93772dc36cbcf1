//! The permutation of width 2 over the BN254 scalar field: S-box degree 5,
//! 8 external and 56 internal rounds.

use crate::field::{all_wf, element, modulus, values, Fq};
use crate::poseidon2::bn254::place_block;
use crate::poseidon2::model::{diagonal_fits_width, permute, Parameters};
use crate::poseidon2::perm::{valid_config, Poseidon2Permutation};
use vstd::prelude::*;

verus! {

/// The diagonal of the internal matrix, each entry less one.
pub open spec fn diag_m1() -> Seq<nat> {
    seq![
        1nat,
        2nat,
    ]
}

/// The constants of external round 0.
pub open spec fn rc_external_0() -> Seq<nat> {
    seq![
        4417881134626180770308697923359573201005643519861877412381846989312604493735nat,
        5433650512959517612316327474713065966758808864213826738576266661723522780033nat,
    ]
}

/// The constants of external round 1.
pub open spec fn rc_external_1() -> Seq<nat> {
    seq![
        13641176377184356099764086973022553863760045607496549923679278773208775739952nat,
        17949713444224994136330421782109149544629237834775211751417461773584374506783nat,
    ]
}

/// The constants of external round 2.
pub open spec fn rc_external_2() -> Seq<nat> {
    seq![
        13765628375339178273710281891027109699578766420463125835325926111705201856003nat,
        19179513468172002314585757290678967643352171735526887944518845346318719730387nat,
    ]
}

/// The constants of external round 3.
pub open spec fn rc_external_3() -> Seq<nat> {
    seq![
        5157412437176756884543472904098424903141745259452875378101256928559722612176nat,
        535160875740282236955320458485730000677124519901643397458212725410971557409nat,
    ]
}

/// The constants of external round 4.
pub open spec fn rc_external_4() -> Seq<nat> {
    seq![
        11635945688914011450976408058407206367914559009113158286982919675551688078198nat,
        614739068603482619581328040478536306925147663946742687395148680260956671871nat,
    ]
}

/// The constants of external round 5.
pub open spec fn rc_external_5() -> Seq<nat> {
    seq![
        18692271780377861570175282183255720350972693125537599213951106550953176268753nat,
        4987059230784976306647166378298632695585915319042844495357753339378260807164nat,
    ]
}

/// The constants of external round 6.
pub open spec fn rc_external_6() -> Seq<nat> {
    seq![
        21851403978498723616722415377430107676258664746210815234490134600998983955497nat,
        9830635451186415300891533983087800047564037813328875992115573428596207326204nat,
    ]
}

/// The constants of external round 7.
pub open spec fn rc_external_7() -> Seq<nat> {
    seq![
        4842706106434537116860242620706030229206345167233200482994958847436425185478nat,
        6422235064906823218421386871122109085799298052314922856340127798647926126490nat,
    ]
}

/// The constants of the external rounds, one vector for each round.
pub open spec fn rc_external() -> Seq<Seq<nat>> {
    seq![
        rc_external_0(),
        rc_external_1(),
        rc_external_2(),
        rc_external_3(),
        rc_external_4(),
        rc_external_5(),
        rc_external_6(),
        rc_external_7(),
    ]
}

/// The constants of the internal rounds 0 to 7.
pub open spec fn rc_internal_0() -> Seq<nat> {
    seq![
        1050793453380762984940163090920066886770841063557081906093018330633089036729nat,
        10665495010329663932664894101216428400933984666065399374198502106997623173873nat,
        19965634623406616956648724894636666805991993496469370618546874926025059150737nat,
        13007250030070838431593222885902415182312449212965120303174723305710127422213nat,
        16877538715074991604507979123743768693428157847423939051086744213162455276374nat,
        18211747749504876135588847560312685184956239426147543810126553367063157141465nat,
        18151553319826126919739798892854572062191241985315767086020821632812331245635nat,
        19957033149976712666746140949846950406660099037474791840946955175819555930825nat,
    ]
}

/// The constants of the internal rounds 8 to 15.
pub open spec fn rc_internal_1() -> Seq<nat> {
    seq![
        3469514863538261843186854830917934449567467100548474599735384052339577040841nat,
        989698510043911779243192466312362856042600749099921773896924315611668507708nat,
        12568377015646290945235387813564567111330046038050864455358059568128000172201nat,
        20856104135605479600325529349246932565148587186338606236677138505306779314172nat,
        8206918720503535523121349917159924938835810381723474192155637697065780938424nat,
        1309058477013932989380617265069188723120054926187607548493110334522527703566nat,
        14076116939332667074621703729512195584105250395163383769419390236426287710606nat,
        10153498892749751942204288991871286290442690932856658983589258153608012428674nat,
    ]
}

/// The constants of the internal rounds 16 to 23.
pub open spec fn rc_internal_2() -> Seq<nat> {
    seq![
        18202499207234128286137597834010475797175973146805180988367589376893530181575nat,
        12739388830157083522877690211447248168864006284243907142044329113461613743052nat,
        15123358710467780770838026754240340042441262572309759635224051333176022613949nat,
        19925004701844594370904593774447343836015483888496504201331110250494635362184nat,
        10352416606816998476681131583320899030072315953910679608943150613208329645891nat,
        10567371822366244361703342347428230537114808440249611395507235283708966113221nat,
        5635498582763880627392290206431559361272660937399944184533035305989295959602nat,
        11866432933224219174041051738704352719163271639958083608224676028593315904909nat,
    ]
}

/// The constants of the internal rounds 24 to 31.
pub open spec fn rc_internal_3() -> Seq<nat> {
    seq![
        5795020705294401441272215064554385591292330721703923167136157291459784140431nat,
        9482202378699252817564375087302794636287866584767523335624368774856230692758nat,
        4245237636894546151746468406560945873445548423466753843402086544922216329298nat,
        12000500941313982757584712677991730019124834399479314697467598397927435905133nat,
        7596790274058425558167520209857956363736666939016807569082239187494363541787nat,
        2484867918246116343205467273440098378820186751202461278013576281097918148877nat,
        18312645949449997391810445935615409295369169383463185688973803378104013950190nat,
        15320686572748723004980855263301182130424010735782762814513954166519592552733nat,
    ]
}

/// The constants of the internal rounds 32 to 39.
pub open spec fn rc_internal_4() -> Seq<nat> {
    seq![
        12618438900597948888520621062416758747872180395546164387827245287017031303859nat,
        17438141672027706116733201008397064011774368832458707512367404736905021019585nat,
        6374197807230665998865688675365359100400438034755781666913068586172586548950nat,
        2189398913433273865510950346186699930188746169476472274335177556702504595264nat,
        6268495580028970231803791523870131137294646402347399003576649137450213034606nat,
        17896250365994900261202920044129628104272791547990619503076839618914047059275nat,
        13692156312448722528008862371944543449350293305158722920787736248435893008873nat,
        15234446864368744483209945022439268713300180233589581910497691316744177619376nat,
    ]
}

/// The constants of the internal rounds 40 to 47.
pub open spec fn rc_internal_5() -> Seq<nat> {
    seq![
        1572426502623310766593681563281600503979671244997798691029595521622402217227nat,
        80103447810215150918585162168214870083573048458555897999822831203653996617nat,
        8228820324013669567851850635126713973797711779951230446503353812192849106342nat,
        5375851433746509614045812476958526065449377558695752132494533666370449415873nat,
        12115998939203497346386774317892338270561208357481805380546938146796257365018nat,
        9764067909645821279940531410531154041386008396840887338272986634350423466622nat,
        8538708244538850542384936174629541085495830544298260335345008245230827876882nat,
        7140127896620013355910287215441004676619168261422440177712039790284719613114nat,
    ]
}

/// The constants of the internal rounds 48 to 55.
pub open spec fn rc_internal_6() -> Seq<nat> {
    seq![
        14297402962228458726038826185823085337698917275385741292940049024977027409762nat,
        6667115556431351074165934212337261254608231545257434281887966406956835140819nat,
        20226761165244293291042617464655196752671169026542832236139342122602741090001nat,
        12038289506489256655759141386763477208196694421666339040483042079632134429119nat,
        19027757334170818571203982241812412991528769934917288000224335655934473717551nat,
        16272152964456553579565580463468069884359929612321610357528838696790370074720nat,
        2500392889689246014710135696485946334448570271481948765283016105301740284071nat,
        8595254970528530312401637448610398388203855633951264114100575485022581946023nat,
    ]
}

/// The constants of the internal rounds.
pub open spec fn rc_internal() -> Seq<nat> {
    rc_internal_0() + rc_internal_1() + rc_internal_2() + rc_internal_3() + rc_internal_4() + rc_internal_5() + rc_internal_6()
}

/// The tables of the instance.
pub open spec fn parameters() -> Parameters {
    Parameters { diag_m1: diag_m1(), rc_external: rc_external(), rc_internal: rc_internal() }
}

fn diag_table() -> (r: [Fq; 2])
    ensures
        all_wf(r@),
        values(r@) == diag_m1(),
{
    let c0 = element(0xac96341c4ffffffb, 0x36fc76959f60cd29, 0x666ea36f7879462e, 0x0e0a77c19a07df2f);
    assert(c0.wf() && c0@ == 1nat) by (nonlinear_arith)
        requires
            c0.limbs@ == seq![0xac96341c4ffffffbu64, 0x36fc76959f60cd29u64, 0x666ea36f7879462eu64, 0x0e0a77c19a07df2fu64],
    {
        reveal(modulus);
    }
    let c1 = element(0x592c68389ffffff6, 0x6df8ed2b3ec19a53, 0xccdd46def0f28c5c, 0x1c14ef83340fbe5e);
    assert(c1.wf() && c1@ == 2nat) by (nonlinear_arith)
        requires
            c1.limbs@ == seq![0x592c68389ffffff6u64, 0x6df8ed2b3ec19a53u64, 0xccdd46def0f28c5cu64, 0x1c14ef83340fbe5eu64],
    {
        reveal(modulus);
    }
    let r = [
        c0, c1,
    ];
    assert(values(r@) =~= diag_m1());
    r
}

fn external_row_0() -> (r: [Fq; 2])
    ensures
        all_wf(r@),
        values(r@) == rc_external_0(),
{
    let c0 = element(0xa96c453dc58aca67, 0x73eb0f4319a6fa1b, 0xc1584c4902cfebe6, 0x0258feaeab003c81);
    assert(c0.wf() && c0@ == 4417881134626180770308697923359573201005643519861877412381846989312604493735nat) by (nonlinear_arith)
        requires
            c0.limbs@ == seq![0xa96c453dc58aca67u64, 0x73eb0f4319a6fa1bu64, 0xc1584c4902cfebe6u64, 0x0258feaeab003c81u64],
    {
        reveal(modulus);
    }
    let c1 = element(0x999f128f883214ee, 0x3812d56244476181, 0xf1c713591a60e735, 0x1d29e209ed432b39);
    assert(c1.wf() && c1@ == 5433650512959517612316327474713065966758808864213826738576266661723522780033nat) by (nonlinear_arith)
        requires
            c1.limbs@ == seq![0x999f128f883214eeu64, 0x3812d56244476181u64, 0xf1c713591a60e735u64, 0x1d29e209ed432b39u64],
    {
        reveal(modulus);
    }
    let r = [
        c0, c1,
    ];
    assert(values(r@) =~= rc_external_0());
    r
}

fn external_row_1() -> (r: [Fq; 2])
    ensures
        all_wf(r@),
        values(r@) == rc_external_1(),
{
    let c0 = element(0x10245a461f9886f9, 0xc1f6a382a4af9cd7, 0x43dc54de7be4216c, 0x08dde7787782a71d);
    assert(c0.wf() && c0@ == 13641176377184356099764086973022553863760045607496549923679278773208775739952nat) by (nonlinear_arith)
        requires
            c0.limbs@ == seq![0x10245a461f9886f9u64, 0xc1f6a382a4af9cd7u64, 0x43dc54de7be4216cu64, 0x08dde7787782a71du64],
    {
        reveal(modulus);
    }
    let c1 = element(0x86d4b4dfcfcc4182, 0xb39eadc24bb31793, 0xf2eb1492aa7b0c79, 0x14adb8ab12efc7fc);
    assert(c1.wf() && c1@ == 17949713444224994136330421782109149544629237834775211751417461773584374506783nat) by (nonlinear_arith)
        requires
            c1.limbs@ == seq![0x86d4b4dfcfcc4182u64, 0xb39eadc24bb31793u64, 0xf2eb1492aa7b0c79u64, 0x14adb8ab12efc7fcu64],
    {
        reveal(modulus);
    }
    let r = [
        c0, c1,
    ];
    assert(values(r@) =~= rc_external_1());
    r
}

fn external_row_2() -> (r: [Fq; 2])
    ensures
        all_wf(r@),
        values(r@) == rc_external_2(),
{
    let c0 = element(0x5ac9777b239d7f99, 0x2de9df1a6b10a565, 0x0fbbf650052bad6b, 0x1d9e1fcdfdd4cd35);
    assert(c0.wf() && c0@ == 13765628375339178273710281891027109699578766420463125835325926111705201856003nat) by (nonlinear_arith)
        requires
            c0.limbs@ == seq![0x5ac9777b239d7f99u64, 0x2de9df1a6b10a565u64, 0x0fbbf650052bad6bu64, 0x1d9e1fcdfdd4cd35u64],
    {
        reveal(modulus);
    }
    let c1 = element(0x610101865edf14ab, 0x10cc90a9e968ec10, 0xbc3715a205fc111a, 0x2f07f1e20f67d489);
    assert(c1.wf() && c1@ == 19179513468172002314585757290678967643352171735526887944518845346318719730387nat) by (nonlinear_arith)
        requires
            c1.limbs@ == seq![0x610101865edf14abu64, 0x10cc90a9e968ec10u64, 0xbc3715a205fc111au64, 0x2f07f1e20f67d489u64],
    {
        reveal(modulus);
    }
    let r = [
        c0, c1,
    ];
    assert(values(r@) =~= rc_external_2());
    r
}

fn external_row_3() -> (r: [Fq; 2])
    ensures
        all_wf(r@),
        values(r@) == rc_external_3(),
{
    let c0 = element(0xd1b7a8a6f159c12e, 0x36243b2a680a4228, 0x20d439cec6a8e4a8, 0x228c467513fc8cef);
    assert(c0.wf() && c0@ == 5157412437176756884543472904098424903141745259452875378101256928559722612176nat) by (nonlinear_arith)
        requires
            c0.limbs@ == seq![0xd1b7a8a6f159c12eu64, 0x36243b2a680a4228u64, 0x20d439cec6a8e4a8u64, 0x228c467513fc8cefu64],
    {
        reveal(modulus);
    }
    let c1 = element(0xd78a36ba6e65a009, 0x27b2c19d400613f7, 0xb3eba82561a94f58, 0x1a07ef8d266420ad);
    assert(c1.wf() && c1@ == 535160875740282236955320458485730000677124519901643397458212725410971557409nat) by (nonlinear_arith)
        requires
            c1.limbs@ == seq![0xd78a36ba6e65a009u64, 0x27b2c19d400613f7u64, 0xb3eba82561a94f58u64, 0x1a07ef8d266420adu64],
    {
        reveal(modulus);
    }
    let r = [
        c0, c1,
    ];
    assert(values(r@) =~= rc_external_3());
    r
}

fn external_row_4() -> (r: [Fq; 2])
    ensures
        all_wf(r@),
        values(r@) == rc_external_4(),
{
    let c0 = element(0xabe800c56c03f53f, 0x99a08bbfe62a8eb9, 0x858e0814814b855b, 0x17a98d6f0420500a);
    assert(c0.wf() && c0@ == 11635945688914011450976408058407206367914559009113158286982919675551688078198nat) by (nonlinear_arith)
        requires
            c0.limbs@ == seq![0xabe800c56c03f53fu64, 0x99a08bbfe62a8eb9u64, 0x858e0814814b855bu64, 0x17a98d6f0420500au64],
    {
        reveal(modulus);
    }
    let c1 = element(0x2452da7b2cf0b07f, 0xa1dff84a6c89a4ee, 0xec02277ada8f2e3b, 0x209688255f5ce1d5);
    assert(c1.wf() && c1@ == 614739068603482619581328040478536306925147663946742687395148680260956671871nat) by (nonlinear_arith)
        requires
            c1.limbs@ == seq![0x2452da7b2cf0b07fu64, 0xa1dff84a6c89a4eeu64, 0xec02277ada8f2e3bu64, 0x209688255f5ce1d5u64],
    {
        reveal(modulus);
    }
    let r = [
        c0, c1,
    ];
    assert(values(r@) =~= rc_external_4());
    r
}

fn external_row_5() -> (r: [Fq; 2])
    ensures
        all_wf(r@),
        values(r@) == rc_external_5(),
{
    let c0 = element(0xe16ec3401066f7c6, 0x52123b4dd78c72f3, 0xfc415ba388773994, 0x0bab3f3f454240a6);
    assert(c0.wf() && c0@ == 18692271780377861570175282183255720350972693125537599213951106550953176268753nat) by (nonlinear_arith)
        requires
            c0.limbs@ == seq![0xe16ec3401066f7c6u64, 0x52123b4dd78c72f3u64, 0xfc415ba388773994u64, 0x0bab3f3f454240a6u64],
    {
        reveal(modulus);
    }
    let c1 = element(0x6e9ebc16180a3588, 0x30117fc8c4d6f90b, 0xda57687662607c64, 0x04b4939350e75c9a);
    assert(c1.wf() && c1@ == 4987059230784976306647166378298632695585915319042844495357753339378260807164nat) by (nonlinear_arith)
        requires
            c1.limbs@ == seq![0x6e9ebc16180a3588u64, 0x30117fc8c4d6f90bu64, 0xda57687662607c64u64, 0x04b4939350e75c9au64],
    {
        reveal(modulus);
    }
    let r = [
        c0, c1,
    ];
    assert(values(r@) =~= rc_external_5());
    r
}

fn external_row_6() -> (r: [Fq; 2])
    ensures
        all_wf(r@),
        values(r@) == rc_external_6(),
{
    let c0 = element(0x9b9f8362205afd38, 0xaeeae293cc4f42b9, 0x71501b1659929038, 0x0a3f23046ae6a2d7);
    assert(c0.wf() && c0@ == 21851403978498723616722415377430107676258664746210815234490134600998983955497nat) by (nonlinear_arith)
        requires
            c0.limbs@ == seq![0x9b9f8362205afd38u64, 0xaeeae293cc4f42b9u64, 0x71501b1659929038u64, 0x0a3f23046ae6a2d7u64],
    {
        reveal(modulus);
    }
    let c1 = element(0xd6ed03ca90af264a, 0xcf5c0afcafac7d63, 0x8a4de575cb0936e8, 0x15c15d2fe6f3e596);
    assert(c1.wf() && c1@ == 9830635451186415300891533983087800047564037813328875992115573428596207326204nat) by (nonlinear_arith)
        requires
            c1.limbs@ == seq![0xd6ed03ca90af264au64, 0xcf5c0afcafac7d63u64, 0x8a4de575cb0936e8u64, 0x15c15d2fe6f3e596u64],
    {
        reveal(modulus);
    }
    let r = [
        c0, c1,
    ];
    assert(values(r@) =~= rc_external_6());
    r
}

fn external_row_7() -> (r: [Fq; 2])
    ensures
        all_wf(r@),
        values(r@) == rc_external_7(),
{
    let c0 = element(0xd0fbe11de3480394, 0xe1be34783fa42cd2, 0x93319f25b5a6722a, 0x1869731f363e9dd7);
    assert(c0.wf() && c0@ == 4842706106434537116860242620706030229206345167233200482994958847436425185478nat) by (nonlinear_arith)
        requires
            c0.limbs@ == seq![0xd0fbe11de3480394u64, 0xe1be34783fa42cd2u64, 0x93319f25b5a6722au64, 0x1869731f363e9dd7u64],
    {
        reveal(modulus);
    }
    let c1 = element(0x58588f426e2e4b8d, 0x7782f8ee21b7db86, 0xb09873d755316d82, 0x062c9c115f1756fc);
    assert(c1.wf() && c1@ == 6422235064906823218421386871122109085799298052314922856340127798647926126490nat) by (nonlinear_arith)
        requires
            c1.limbs@ == seq![0x58588f426e2e4b8du64, 0x7782f8ee21b7db86u64, 0xb09873d755316d82u64, 0x062c9c115f1756fcu64],
    {
        reveal(modulus);
    }
    let r = [
        c0, c1,
    ];
    assert(values(r@) =~= rc_external_7());
    r
}

fn internal_block_0() -> (r: [Fq; 8])
    ensures
        all_wf(r@),
        values(r@) == rc_internal_0(),
{
    let c0 = element(0x8099c7d930553dfe, 0x87c661d6077c15b7, 0x5a5ac36a76bd32d3, 0x27889e1d793f840c);
    assert(c0.wf() && c0@ == 1050793453380762984940163090920066886770841063557081906093018330633089036729nat) by (nonlinear_arith)
        requires
            c0.limbs@ == seq![0x8099c7d930553dfeu64, 0x87c661d6077c15b7u64, 0x5a5ac36a76bd32d3u64, 0x27889e1d793f840cu64],
    {
        reveal(modulus);
    }
    let c1 = element(0x29388f35439e8c4b, 0x42a07b4da45f0bbb, 0x411b6d19b6611e22, 0x0a6d920746a04c15);
    assert(c1.wf() && c1@ == 10665495010329663932664894101216428400933984666065399374198502106997623173873nat) by (nonlinear_arith)
        requires
            c1.limbs@ == seq![0x29388f35439e8c4bu64, 0x42a07b4da45f0bbbu64, 0x411b6d19b6611e22u64, 0x0a6d920746a04c15u64],
    {
        reveal(modulus);
    }
    let c2 = element(0x2d7e1c1027534ec9, 0xd55601d295ff74c4, 0xb43d00710721d217, 0x012686ab8ae93cd2);
    assert(c2.wf() && c2@ == 19965634623406616956648724894636666805991993496469370618546874926025059150737nat) by (nonlinear_arith)
        requires
            c2.limbs@ == seq![0x2d7e1c1027534ec9u64, 0xd55601d295ff74c4u64, 0xb43d00710721d217u64, 0x012686ab8ae93cd2u64],
    {
        reveal(modulus);
    }
    let c3 = element(0xa489be9a31841db1, 0xcfe42b63851ee28b, 0x78a78fff698a5272, 0x156e33ea2de332a2);
    assert(c3.wf() && c3@ == 13007250030070838431593222885902415182312449212965120303174723305710127422213nat) by (nonlinear_arith)
        requires
            c3.limbs@ == seq![0xa489be9a31841db1u64, 0xcfe42b63851ee28bu64, 0x78a78fff698a5272u64, 0x156e33ea2de332a2u64],
    {
        reveal(modulus);
    }
    let c4 = element(0x2b52a7172d84bd84, 0xc37eac07823d04f8, 0x2dd4d10602284e03, 0x291941dd0ceea4f1);
    assert(c4.wf() && c4@ == 16877538715074991604507979123743768693428157847423939051086744213162455276374nat) by (nonlinear_arith)
        requires
            c4.limbs@ == seq![0x2b52a7172d84bd84u64, 0xc37eac07823d04f8u64, 0x2dd4d10602284e03u64, 0x291941dd0ceea4f1u64],
    {
        reveal(modulus);
    }
    let c5 = element(0x2d132ca948aa3564, 0x0d69b2b0a0f323c9, 0xbd135b98e5ac170c, 0x2eb17bec78df7294);
    assert(c5.wf() && c5@ == 18211747749504876135588847560312685184956239426147543810126553367063157141465nat) by (nonlinear_arith)
        requires
            c5.limbs@ == seq![0x2d132ca948aa3564u64, 0x0d69b2b0a0f323c9u64, 0xbd135b98e5ac170cu64, 0x2eb17bec78df7294u64],
    {
        reveal(modulus);
    }
    let c6 = element(0xb27b508ae5174737, 0xed83bd8e6f1891b5, 0x9fff519abdc159b6, 0x18accd26da500d5c);
    assert(c6.wf() && c6@ == 18151553319826126919739798892854572062191241985315767086020821632812331245635nat) by (nonlinear_arith)
        requires
            c6.limbs@ == seq![0xb27b508ae5174737u64, 0xed83bd8e6f1891b5u64, 0x9fff519abdc159b6u64, 0x18accd26da500d5cu64],
    {
        reveal(modulus);
    }
    let c7 = element(0x72f41170e9789115, 0x97b50e3d46c3b143, 0xd3a82a78be4cd18e, 0x0d135f73a0b59e10);
    assert(c7.wf() && c7@ == 19957033149976712666746140949846950406660099037474791840946955175819555930825nat) by (nonlinear_arith)
        requires
            c7.limbs@ == seq![0x72f41170e9789115u64, 0x97b50e3d46c3b143u64, 0xd3a82a78be4cd18eu64, 0x0d135f73a0b59e10u64],
    {
        reveal(modulus);
    }
    let r = [
        c0, c1, c2, c3, c4, c5, c6, c7,
    ];
    assert(values(r@) =~= rc_internal_0());
    r
}

fn internal_block_1() -> (r: [Fq; 8])
    ensures
        all_wf(r@),
        values(r@) == rc_internal_1(),
{
    let c0 = element(0xf8f813168475e2d7, 0xac8729148900dd99, 0x47c245f73ad542b9, 0x0d4eaa0cc86c4bc5);
    assert(c0.wf() && c0@ == 3469514863538261843186854830917934449567467100548474599735384052339577040841nat) by (nonlinear_arith)
        requires
            c0.limbs@ == seq![0xf8f813168475e2d7u64, 0xac8729148900dd99u64, 0x47c245f73ad542b9u64, 0x0d4eaa0cc86c4bc5u64],
    {
        reveal(modulus);
    }
    let c1 = element(0xf0eb00af61b508a8, 0x1d8ef8cd804e5816, 0xff7ddf4367629878, 0x2bca06cf8ed0ac37);
    assert(c1.wf() && c1@ == 989698510043911779243192466312362856042600749099921773896924315611668507708nat) by (nonlinear_arith)
        requires
            c1.limbs@ == seq![0xf0eb00af61b508a8u64, 0x1d8ef8cd804e5816u64, 0xff7ddf4367629878u64, 0x2bca06cf8ed0ac37u64],
    {
        reveal(modulus);
    }
    let c2 = element(0xca6ad2283d19de16, 0x44bac763338950e6, 0xb9d829d89c4ff430, 0x1c59e2d366b057de);
    assert(c2.wf() && c2@ == 12568377015646290945235387813564567111330046038050864455358059568128000172201nat) by (nonlinear_arith)
        requires
            c2.limbs@ == seq![0xca6ad2283d19de16u64, 0x44bac763338950e6u64, 0xb9d829d89c4ff430u64, 0x1c59e2d366b057deu64],
    {
        reveal(modulus);
    }
    let c3 = element(0x6893946bd9d1bed1, 0x5194597e219e8861, 0xcfb879490d8ae06b, 0x2067c27e7817da48);
    assert(c3.wf() && c3@ == 20856104135605479600325529349246932565148587186338606236677138505306779314172nat) by (nonlinear_arith)
        requires
            c3.limbs@ == seq![0x6893946bd9d1bed1u64, 0x5194597e219e8861u64, 0xcfb879490d8ae06bu64, 0x2067c27e7817da48u64],
    {
        reveal(modulus);
    }
    let c4 = element(0xe1d516357166ba33, 0xb7d9765678be6da4, 0xede788ac21265799, 0x301ec35d6c040fbf);
    assert(c4.wf() && c4@ == 8206918720503535523121349917159924938835810381723474192155637697065780938424nat) by (nonlinear_arith)
        requires
            c4.limbs@ == seq![0xe1d516357166ba33u64, 0xb7d9765678be6da4u64, 0xede788ac21265799u64, 0x301ec35d6c040fbfu64],
    {
        reveal(modulus);
    }
    let c5 = element(0x10869851c117a901, 0xe3b9a765195dc3f7, 0x4c6cdbd3e4c5cf3e, 0x1dbfee289a219d25);
    assert(c5.wf() && c5@ == 1309058477013932989380617265069188723120054926187607548493110334522527703566nat) by (nonlinear_arith)
        requires
            c5.limbs@ == seq![0x10869851c117a901u64, 0xe3b9a765195dc3f7u64, 0x4c6cdbd3e4c5cf3eu64, 0x1dbfee289a219d25u64],
    {
        reveal(modulus);
    }
    let c6 = element(0xc27e269170bbd4ca, 0xb2699884b935068d, 0x85d09b6f47461a9a, 0x0765e3eb4ee29d1a);
    assert(c6.wf() && c6@ == 14076116939332667074621703729512195584105250395163383769419390236426287710606nat) by (nonlinear_arith)
        requires
            c6.limbs@ == seq![0xc27e269170bbd4cau64, 0xb2699884b935068du64, 0x85d09b6f47461a9au64, 0x0765e3eb4ee29d1au64],
    {
        reveal(modulus);
    }
    let c7 = element(0xb80972bc0a3d4a9a, 0x6a95e82385221a89, 0x29de2e17845075b1, 0x2e0bac69061e5aa4);
    assert(c7.wf() && c7@ == 10153498892749751942204288991871286290442690932856658983589258153608012428674nat) by (nonlinear_arith)
        requires
            c7.limbs@ == seq![0xb80972bc0a3d4a9au64, 0x6a95e82385221a89u64, 0x29de2e17845075b1u64, 0x2e0bac69061e5aa4u64],
    {
        reveal(modulus);
    }
    let r = [
        c0, c1, c2, c3, c4, c5, c6, c7,
    ];
    assert(values(r@) =~= rc_internal_1());
    r
}

fn internal_block_2() -> (r: [Fq; 8])
    ensures
        all_wf(r@),
        values(r@) == rc_internal_2(),
{
    let c0 = element(0xd9dc3367c6c215d2, 0x2aa49878b5b9449e, 0xc2b96cf438cc73ec, 0x0f8ffda334845f74);
    assert(c0.wf() && c0@ == 18202499207234128286137597834010475797175973146805180988367589376893530181575nat) by (nonlinear_arith)
        requires
            c0.limbs@ == seq![0xd9dc3367c6c215d2u64, 0x2aa49878b5b9449eu64, 0xc2b96cf438cc73ecu64, 0x0f8ffda334845f74u64],
    {
        reveal(modulus);
    }
    let c1 = element(0x9ea9a08f13bc2971, 0x9e6b7a1b24884e5b, 0xa5ec85eb1e6cb18f, 0x2e381f3cbe57c88d);
    assert(c1.wf() && c1@ == 12739388830157083522877690211447248168864006284243907142044329113461613743052nat) by (nonlinear_arith)
        requires
            c1.limbs@ == seq![0x9ea9a08f13bc2971u64, 0x9e6b7a1b24884e5bu64, 0xa5ec85eb1e6cb18fu64, 0x2e381f3cbe57c88du64],
    {
        reveal(modulus);
    }
    let c2 = element(0xcf6f0f63166dc32e, 0xb111cc4db3db063b, 0x6c58727ffe90a1d7, 0x05e624ff82e2b944);
    assert(c2.wf() && c2@ == 15123358710467780770838026754240340042441262572309759635224051333176022613949nat) by (nonlinear_arith)
        requires
            c2.limbs@ == seq![0xcf6f0f63166dc32eu64, 0xb111cc4db3db063bu64, 0x6c58727ffe90a1d7u64, 0x05e624ff82e2b944u64],
    {
        reveal(modulus);
    }
    let c3 = element(0x595827549e31edb7, 0xd3bde7cf17abef70, 0xfac533a72d527a24, 0x060ece5235787b72);
    assert(c3.wf() && c3@ == 19925004701844594370904593774447343836015483888496504201331110250494635362184nat) by (nonlinear_arith)
        requires
            c3.limbs@ == seq![0x595827549e31edb7u64, 0xd3bde7cf17abef70u64, 0xfac533a72d527a24u64, 0x060ece5235787b72u64],
    {
        reveal(modulus);
    }
    let c4 = element(0x30d8f27f0080a33d, 0x691103220aa85284, 0x3c11003092bf61d2, 0x1342a4cfd901a295);
    assert(c4.wf() && c4@ == 10352416606816998476681131583320899030072315953910679608943150613208329645891nat) by (nonlinear_arith)
        requires
            c4.limbs@ == seq![0x30d8f27f0080a33du64, 0x691103220aa85284u64, 0x3c11003092bf61d2u64, 0x1342a4cfd901a295u64],
    {
        reveal(modulus);
    }
    let c5 = element(0x61b87beb719426c1, 0x34ba95d60eb9ebbd, 0xee6280441a829247, 0x23fad23a17da49d5);
    assert(c5.wf() && c5@ == 10567371822366244361703342347428230537114808440249611395507235283708966113221nat) by (nonlinear_arith)
        requires
            c5.limbs@ == seq![0x61b87beb719426c1u64, 0x34ba95d60eb9ebbdu64, 0xee6280441a829247u64, 0x23fad23a17da49d5u64],
    {
        reveal(modulus);
    }
    let c6 = element(0x2d5671a0fac38f4c, 0xbba9fcc1c1b1a449, 0x4da9096bfaaf9c19, 0x05b4ec45dc045007);
    assert(c6.wf() && c6@ == 5635498582763880627392290206431559361272660937399944184533035305989295959602nat) by (nonlinear_arith)
        requires
            c6.limbs@ == seq![0x2d5671a0fac38f4cu64, 0xbba9fcc1c1b1a449u64, 0x4da9096bfaaf9c19u64, 0x05b4ec45dc045007u64],
    {
        reveal(modulus);
    }
    let c7 = element(0x037436a1aa8c7f8c, 0x18b3bf03001c7301, 0xde9a6fc8b7e5a635, 0x1869c170d9259cb6);
    assert(c7.wf() && c7@ == 11866432933224219174041051738704352719163271639958083608224676028593315904909nat) by (nonlinear_arith)
        requires
            c7.limbs@ == seq![0x037436a1aa8c7f8cu64, 0x18b3bf03001c7301u64, 0xde9a6fc8b7e5a635u64, 0x1869c170d9259cb6u64],
    {
        reveal(modulus);
    }
    let r = [
        c0, c1, c2, c3, c4, c5, c6, c7,
    ];
    assert(values(r@) =~= rc_internal_2());
    r
}

fn internal_block_3() -> (r: [Fq; 8])
    ensures
        all_wf(r@),
        values(r@) == rc_internal_3(),
{
    let c0 = element(0xf72c49c01bc31bd6, 0x195c10b2304e1f0c, 0x15f734f15b8fdbeb, 0x0d3c0e250d2020fe);
    assert(c0.wf() && c0@ == 5795020705294401441272215064554385591292330721703923167136157291459784140431nat) by (nonlinear_arith)
        requires
            c0.limbs@ == seq![0xf72c49c01bc31bd6u64, 0x195c10b2304e1f0cu64, 0x15f734f15b8fdbebu64, 0x0d3c0e250d2020feu64],
    {
        reveal(modulus);
    }
    let c1 = element(0x0fcff73552b2e2d9, 0xd0414e687c4850d5, 0x00744ae01cd04142, 0x1619ea74ff1794c1);
    assert(c1.wf() && c1@ == 9482202378699252817564375087302794636287866584767523335624368774856230692758nat) by (nonlinear_arith)
        requires
            c1.limbs@ == seq![0x0fcff73552b2e2d9u64, 0xd0414e687c4850d5u64, 0x00744ae01cd04142u64, 0x1619ea74ff1794c1u64],
    {
        reveal(modulus);
    }
    let c2 = element(0x28500b6a73d405b7, 0xb4c2f96ac4fb355a, 0x1dc6a7f3394d3d12, 0x156e721c51da53c9);
    assert(c2.wf() && c2@ == 4245237636894546151746468406560945873445548423466753843402086544922216329298nat) by (nonlinear_arith)
        requires
            c2.limbs@ == seq![0x28500b6a73d405b7u64, 0xb4c2f96ac4fb355au64, 0x1dc6a7f3394d3d12u64, 0x156e721c51da53c9u64],
    {
        reveal(modulus);
    }
    let c3 = element(0x5e3d132739468327, 0xf372b54e51b2722d, 0x9b29355985fe2518, 0x17a81a0bc574d844);
    assert(c3.wf() && c3@ == 12000500941313982757584712677991730019124834399479314697467598397927435905133nat) by (nonlinear_arith)
        requires
            c3.limbs@ == seq![0x5e3d132739468327u64, 0xf372b54e51b2722du64, 0x9b29355985fe2518u64, 0x17a81a0bc574d844u64],
    {
        reveal(modulus);
    }
    let c4 = element(0x176a569a42051a56, 0xaf6a331b261f3277, 0xe08d06ec2b469f7e, 0x1662a55b8a8c2cbf);
    assert(c4.wf() && c4@ == 7596790274058425558167520209857956363736666939016807569082239187494363541787nat) by (nonlinear_arith)
        requires
            c4.limbs@ == seq![0x176a569a42051a56u64, 0xaf6a331b261f3277u64, 0xe08d06ec2b469f7eu64, 0x1662a55b8a8c2cbfu64],
    {
        reveal(modulus);
    }
    let c5 = element(0x3bc085dedf786323, 0x178e5df39e4fd5fa, 0x98f7befec8dd5467, 0x1374c3f62b7cd78b);
    assert(c5.wf() && c5@ == 2484867918246116343205467273440098378820186751202461278013576281097918148877nat) by (nonlinear_arith)
        requires
            c5.limbs@ == seq![0x3bc085dedf786323u64, 0x178e5df39e4fd5fau64, 0x98f7befec8dd5467u64, 0x1374c3f62b7cd78bu64],
    {
        reveal(modulus);
    }
    let c6 = element(0x9c93097b9ed507f4, 0x0e7691672a42fe66, 0x13c16032896a115e, 0x1eda5a3d1db230bc);
    assert(c6.wf() && c6@ == 18312645949449997391810445935615409295369169383463185688973803378104013950190nat) by (nonlinear_arith)
        requires
            c6.limbs@ == seq![0x9c93097b9ed507f4u64, 0x0e7691672a42fe66u64, 0x13c16032896a115eu64, 0x1eda5a3d1db230bcu64],
    {
        reveal(modulus);
    }
    let c7 = element(0x36a3664797689721, 0xd83062984cb25e9f, 0xeb62da57ead47c18, 0x240c42cb8898c9de);
    assert(c7.wf() && c7@ == 15320686572748723004980855263301182130424010735782762814513954166519592552733nat) by (nonlinear_arith)
        requires
            c7.limbs@ == seq![0x36a3664797689721u64, 0xd83062984cb25e9fu64, 0xeb62da57ead47c18u64, 0x240c42cb8898c9deu64],
    {
        reveal(modulus);
    }
    let r = [
        c0, c1, c2, c3, c4, c5, c6, c7,
    ];
    assert(values(r@) =~= rc_internal_3());
    r
}

fn internal_block_4() -> (r: [Fq; 8])
    ensures
        all_wf(r@),
        values(r@) == rc_internal_4(),
{
    let c0 = element(0x6ef4b4e511843d3d, 0xca8edb3ecb6ee554, 0x6ebd407bb39e22ff, 0x2bf5eb2db5c78e6e);
    assert(c0.wf() && c0@ == 12618438900597948888520621062416758747872180395546164387827245287017031303859nat) by (nonlinear_arith)
        requires
            c0.limbs@ == seq![0x6ef4b4e511843d3du64, 0xca8edb3ecb6ee554u64, 0x6ebd407bb39e22ffu64, 0x2bf5eb2db5c78e6eu64],
    {
        reveal(modulus);
    }
    let c1 = element(0xfd07c7c3ec0aa2c6, 0xb5eecf9dcaae86c9, 0xa345338900c1ac8b, 0x00d3ab5b3cee349c);
    assert(c1.wf() && c1@ == 17438141672027706116733201008397064011774368832458707512367404736905021019585nat) by (nonlinear_arith)
        requires
            c1.limbs@ == seq![0xfd07c7c3ec0aa2c6u64, 0xb5eecf9dcaae86c9u64, 0xa345338900c1ac8bu64, 0x00d3ab5b3cee349cu64],
    {
        reveal(modulus);
    }
    let c2 = element(0x25c0667f20608a97, 0xd7de20ae5011ca43, 0x3bc6c7aff1f021c3, 0x2f14c8114561b4b6);
    assert(c2.wf() && c2@ == 6374197807230665998865688675365359100400438034755781666913068586172586548950nat) by (nonlinear_arith)
        requires
            c2.limbs@ == seq![0x25c0667f20608a97u64, 0xd7de20ae5011ca43u64, 0x3bc6c7aff1f021c3u64, 0x2f14c8114561b4b6u64],
    {
        reveal(modulus);
    }
    let c3 = element(0x5b1bfc0f8c8a6097, 0x79f9b35d24ba2022, 0x7da661b039ed6645, 0x05aa835dfd00eedb);
    assert(c3.wf() && c3@ == 2189398913433273865510950346186699930188746169476472274335177556702504595264nat) by (nonlinear_arith)
        requires
            c3.limbs@ == seq![0x5b1bfc0f8c8a6097u64, 0x79f9b35d24ba2022u64, 0x7da661b039ed6645u64, 0x05aa835dfd00eedbu64],
    {
        reveal(modulus);
    }
    let c4 = element(0x6e690c1c90403aff, 0x55e412a440b9cff8, 0xbb7ea2b4af3e4cd7, 0x00568e83d40efc8d);
    assert(c4.wf() && c4@ == 6268495580028970231803791523870131137294646402347399003576649137450213034606nat) by (nonlinear_arith)
        requires
            c4.limbs@ == seq![0x6e690c1c90403affu64, 0x55e412a440b9cff8u64, 0xbb7ea2b4af3e4cd7u64, 0x00568e83d40efc8du64],
    {
        reveal(modulus);
    }
    let c5 = element(0x43af3e266373b671, 0x127f969e3f3814e7, 0x2a75164a578e552c, 0x2175fac47f74fffe);
    assert(c5.wf() && c5@ == 17896250365994900261202920044129628104272791547990619503076839618914047059275nat) by (nonlinear_arith)
        requires
            c5.limbs@ == seq![0x43af3e266373b671u64, 0x127f969e3f3814e7u64, 0x2a75164a578e552cu64, 0x2175fac47f74fffeu64],
    {
        reveal(modulus);
    }
    let c6 = element(0xeb4c476d65ea944d, 0xe947cd8484aa5664, 0x260b6908aeadc54a, 0x025e4f0ca5d6b0b8);
    assert(c6.wf() && c6@ == 13692156312448722528008862371944543449350293305158722920787736248435893008873nat) by (nonlinear_arith)
        requires
            c6.limbs@ == seq![0xeb4c476d65ea944du64, 0xe947cd8484aa5664u64, 0x260b6908aeadc54au64, 0x025e4f0ca5d6b0b8u64],
    {
        reveal(modulus);
    }
    let c7 = element(0xb2bb86f30f8ef8b3, 0x503e0262637bdf9e, 0xf45a8a04de2f07bb, 0x22a549157c02d6e8);
    assert(c7.wf() && c7@ == 15234446864368744483209945022439268713300180233589581910497691316744177619376nat) by (nonlinear_arith)
        requires
            c7.limbs@ == seq![0xb2bb86f30f8ef8b3u64, 0x503e0262637bdf9eu64, 0xf45a8a04de2f07bbu64, 0x22a549157c02d6e8u64],
    {
        reveal(modulus);
    }
    let r = [
        c0, c1, c2, c3, c4, c5, c6, c7,
    ];
    assert(values(r@) =~= rc_internal_4());
    r
}

fn internal_block_5() -> (r: [Fq; 8])
    ensures
        all_wf(r@),
        values(r@) == rc_internal_5(),
{
    let c0 = element(0xb7720222d9a506b9, 0x8b03d26c07561bc7, 0x0c997d272bcc0fcb, 0x214bec2670b36742);
    assert(c0.wf() && c0@ == 1572426502623310766593681563281600503979671244997798691029595521622402217227nat) by (nonlinear_arith)
        requires
            c0.limbs@ == seq![0xb7720222d9a506b9u64, 0x8b03d26c07561bc7u64, 0x0c997d272bcc0fcbu64, 0x214bec2670b36742u64],
    {
        reveal(modulus);
    }
    let c1 = element(0x6db0ef8b7577bb86, 0xd487ffebe2bdef59, 0x8fccdcdab81b9491, 0x0d2c4e919b4e9067);
    assert(c1.wf() && c1@ == 80103447810215150918585162168214870083573048458555897999822831203653996617nat) by (nonlinear_arith)
        requires
            c1.limbs@ == seq![0x6db0ef8b7577bb86u64, 0xd487ffebe2bdef59u64, 0x8fccdcdab81b9491u64, 0x0d2c4e919b4e9067u64],
    {
        reveal(modulus);
    }
    let c2 = element(0xbc373e8cf5a00e6b, 0xca5f9450feacdb15, 0xf02e25111abf5533, 0x2eda54e9fc8ef2e1);
    assert(c2.wf() && c2@ == 8228820324013669567851850635126713973797711779951230446503353812192849106342nat) by (nonlinear_arith)
        requires
            c2.limbs@ == seq![0xbc373e8cf5a00e6bu64, 0xca5f9450feacdb15u64, 0xf02e25111abf5533u64, 0x2eda54e9fc8ef2e1u64],
    {
        reveal(modulus);
    }
    let c3 = element(0x54a9f39c28361dde, 0x43f7f6c28e9bd7d4, 0xd5a7772607458591, 0x1a88852df6658bf2);
    assert(c3.wf() && c3@ == 5375851433746509614045812476958526065449377558695752132494533666370449415873nat) by (nonlinear_arith)
        requires
            c3.limbs@ == seq![0x54a9f39c28361ddeu64, 0x43f7f6c28e9bd7d4u64, 0xd5a7772607458591u64, 0x1a88852df6658bf2u64],
    {
        reveal(modulus);
    }
    let c4 = element(0x9667b08e4e0129b2, 0x1b82df4fbc2802e0, 0x2667926acfa6d069, 0x0ef12dac48270df6);
    assert(c4.wf() && c4@ == 12115998939203497346386774317892338270561208357481805380546938146796257365018nat) by (nonlinear_arith)
        requires
            c4.limbs@ == seq![0x9667b08e4e0129b2u64, 0x1b82df4fbc2802e0u64, 0x2667926acfa6d069u64, 0x0ef12dac48270df6u64],
    {
        reveal(modulus);
    }
    let c5 = element(0x099e78a54b060dd6, 0x941beb22cff80798, 0x01f6da3b766400e2, 0x0ad1ca2c2e4d9c93);
    assert(c5.wf() && c5@ == 9764067909645821279940531410531154041386008396840887338272986634350423466622nat) by (nonlinear_arith)
        requires
            c5.limbs@ == seq![0x099e78a54b060dd6u64, 0x941beb22cff80798u64, 0x01f6da3b766400e2u64, 0x0ad1ca2c2e4d9c93u64],
    {
        reveal(modulus);
    }
    let c6 = element(0xf20c0e76519dd82c, 0x5dd02cdfd2ac3c96, 0xe391867f83ae55d4, 0x30068131c4fe95d1);
    assert(c6.wf() && c6@ == 8538708244538850542384936174629541085495830544298260335345008245230827876882nat) by (nonlinear_arith)
        requires
            c6.limbs@ == seq![0xf20c0e76519dd82cu64, 0x5dd02cdfd2ac3c96u64, 0xe391867f83ae55d4u64, 0x30068131c4fe95d1u64],
    {
        reveal(modulus);
    }
    let c7 = element(0x4dc7005ff1f30413, 0xcdb270162845cfbb, 0xe161cc2901758391, 0x093f1cff3bbac7d4);
    assert(c7.wf() && c7@ == 7140127896620013355910287215441004676619168261422440177712039790284719613114nat) by (nonlinear_arith)
        requires
            c7.limbs@ == seq![0x4dc7005ff1f30413u64, 0xcdb270162845cfbbu64, 0xe161cc2901758391u64, 0x093f1cff3bbac7d4u64],
    {
        reveal(modulus);
    }
    let r = [
        c0, c1, c2, c3, c4, c5, c6, c7,
    ];
    assert(values(r@) =~= rc_internal_5());
    r
}

fn internal_block_6() -> (r: [Fq; 8])
    ensures
        all_wf(r@),
        values(r@) == rc_internal_6(),
{
    let c0 = element(0x3a82a99f7d37e7ca, 0x86ca9972a31b215f, 0xe0508aa7e0e12531, 0x2b21602b9c0ab846);
    assert(c0.wf() && c0@ == 14297402962228458726038826185823085337698917275385741292940049024977027409762nat) by (nonlinear_arith)
        requires
            c0.limbs@ == seq![0x3a82a99f7d37e7cau64, 0x86ca9972a31b215fu64, 0xe0508aa7e0e12531u64, 0x2b21602b9c0ab846u64],
    {
        reveal(modulus);
    }
    let c1 = element(0xc8e755540a0959c2, 0x1c7873e82d6c91f9, 0x1fb10bb098913a15, 0x2bd2e3bee55bc94e);
    assert(c1.wf() && c1@ == 6667115556431351074165934212337261254608231545257434281887966406956835140819nat) by (nonlinear_arith)
        requires
            c1.limbs@ == seq![0xc8e755540a0959c2u64, 0x1c7873e82d6c91f9u64, 0x1fb10bb098913a15u64, 0x2bd2e3bee55bc94eu64],
    {
        reveal(modulus);
    }
    let c2 = element(0xa8cc4d5980fba8a1, 0x738008832215497d, 0xcb613bd535c93170, 0x1928e9ed1a2fe728);
    assert(c2.wf() && c2@ == 20226761165244293291042617464655196752671169026542832236139342122602741090001nat) by (nonlinear_arith)
        requires
            c2.limbs@ == seq![0xa8cc4d5980fba8a1u64, 0x738008832215497du64, 0xcb613bd535c93170u64, 0x1928e9ed1a2fe728u64],
    {
        reveal(modulus);
    }
    let c3 = element(0x4792d3a4b7086125, 0xd6fca8f840d3912b, 0x157c8bf89713a132, 0x2ddbc6bdd197a327);
    assert(c3.wf() && c3@ == 12038289506489256655759141386763477208196694421666339040483042079632134429119nat) by (nonlinear_arith)
        requires
            c3.limbs@ == seq![0x4792d3a4b7086125u64, 0xd6fca8f840d3912bu64, 0x157c8bf89713a132u64, 0x2ddbc6bdd197a327u64],
    {
        reveal(modulus);
    }
    let c4 = element(0xf658ea6e8ce21945, 0x9f8edc049bdf695f, 0x334a7227b37ffe84, 0x03aa0ace0b3934d8);
    assert(c4.wf() && c4@ == 19027757334170818571203982241812412991528769934917288000224335655934473717551nat) by (nonlinear_arith)
        requires
            c4.limbs@ == seq![0xf658ea6e8ce21945u64, 0x9f8edc049bdf695fu64, 0x334a7227b37ffe84u64, 0x03aa0ace0b3934d8u64],
    {
        reveal(modulus);
    }
    let c5 = element(0x3be0c64e6178fc72, 0x8258af153376a5a5, 0x01bbc50c72632835, 0x05c5c5f078461126);
    assert(c5.wf() && c5@ == 16272152964456553579565580463468069884359929612321610357528838696790370074720nat) by (nonlinear_arith)
        requires
            c5.limbs@ == seq![0x3be0c64e6178fc72u64, 0x8258af153376a5a5u64, 0x01bbc50c72632835u64, 0x05c5c5f078461126u64],
    {
        reveal(modulus);
    }
    let c6 = element(0xca5ca78d5ceb88c8, 0xd58ccd5f3af51ead, 0xac6f13a94ff64d28, 0x2571325d7770d676);
    assert(c6.wf() && c6@ == 2500392889689246014710135696485946334448570271481948765283016105301740284071nat) by (nonlinear_arith)
        requires
            c6.limbs@ == seq![0xca5ca78d5ceb88c8u64, 0xd58ccd5f3af51eadu64, 0xac6f13a94ff64d28u64, 0x2571325d7770d676u64],
    {
        reveal(modulus);
    }
    let c7 = element(0x227f5268901865aa, 0xbf1d22d3298454de, 0x7a477e52e2de015f, 0x2a8bf714ae1dc826);
    assert(c7.wf() && c7@ == 8595254970528530312401637448610398388203855633951264114100575485022581946023nat) by (nonlinear_arith)
        requires
            c7.limbs@ == seq![0x227f5268901865aau64, 0xbf1d22d3298454deu64, 0x7a477e52e2de015fu64, 0x2a8bf714ae1dc826u64],
    {
        reveal(modulus);
    }
    let r = [
        c0, c1, c2, c3, c4, c5, c6, c7,
    ];
    assert(values(r@) =~= rc_internal_6());
    r
}

fn internal_table() -> (r: [Fq; 56])
    ensures
        all_wf(r@),
        values(r@) == rc_internal(),
{
    let zero = Fq::zero();
    let mut r = [zero; 56];
    let b0 = internal_block_0();
    place_block(&mut r, &b0, 0);
    let b1 = internal_block_1();
    place_block(&mut r, &b1, 8);
    let b2 = internal_block_2();
    place_block(&mut r, &b2, 16);
    let b3 = internal_block_3();
    place_block(&mut r, &b3, 24);
    let b4 = internal_block_4();
    place_block(&mut r, &b4, 32);
    let b5 = internal_block_5();
    place_block(&mut r, &b5, 40);
    let b6 = internal_block_6();
    place_block(&mut r, &b6, 48);
    proof {
        assert forall|k: int| 0 <= k < 56 implies values(r@)[k] == rc_internal()[k] by {
            if 0 <= k < 8 {
                assert(r[0 + (k - 0)] == b0[k - 0]);
                assert(values(b0@)[k - 0] == rc_internal_0()[k - 0]);
            }
            if 8 <= k < 16 {
                assert(r[8 + (k - 8)] == b1[k - 8]);
                assert(values(b1@)[k - 8] == rc_internal_1()[k - 8]);
            }
            if 16 <= k < 24 {
                assert(r[16 + (k - 16)] == b2[k - 16]);
                assert(values(b2@)[k - 16] == rc_internal_2()[k - 16]);
            }
            if 24 <= k < 32 {
                assert(r[24 + (k - 24)] == b3[k - 24]);
                assert(values(b3@)[k - 24] == rc_internal_3()[k - 24]);
            }
            if 32 <= k < 40 {
                assert(r[32 + (k - 32)] == b4[k - 32]);
                assert(values(b4@)[k - 32] == rc_internal_4()[k - 32]);
            }
            if 40 <= k < 48 {
                assert(r[40 + (k - 40)] == b5[k - 40]);
                assert(values(b5@)[k - 40] == rc_internal_5()[k - 40]);
            }
            if 48 <= k < 56 {
                assert(r[48 + (k - 48)] == b6[k - 48]);
                assert(values(b6@)[k - 48] == rc_internal_6()[k - 48]);
            }
        }
        assert(values(r@) =~= rc_internal());
    }
    r
}

/// The instance with its tables.
pub fn instance() -> (p: Poseidon2Permutation<2, 5, 8, 56>)
    ensures
        p.wf(),
        p@ == parameters(),
        diagonal_fits_width(p@.diag_m1),
{
    let rows = [
        external_row_0(),
        external_row_1(),
        external_row_2(),
        external_row_3(),
        external_row_4(),
        external_row_5(),
        external_row_6(),
        external_row_7(),
    ];
    let made = Poseidon2Permutation::<2, 5, 8, 56>::new(diag_table(), rows, internal_table());
    match made {
        Ok(p) => {
            proof {
                assert(p@.rc_external =~= rc_external());
            }
            p
        },
        Err(_) => {
            proof {
                assert(valid_config(2, 5, 8));
            }
            vstd::pervasive::unreached()
        },
    }
}

/// The permutation of a state, which is left as it is.
pub fn permutation(input: &[Fq; 2]) -> (output: [Fq; 2])
    requires
        all_wf(input@),
    ensures
        all_wf(output@),
        values(output@) == permute(5, parameters(), values(input@)),
{
    instance().permutation(input)
}

/// The permutation, on the state in place.
pub fn permutation_in_place(state: &mut [Fq; 2])
    requires
        all_wf(old(state)@),
    ensures
        all_wf(final(state)@),
        values(final(state)@) == permute(5, parameters(), values(old(state)@)),
{
    instance().permutation_in_place(state)
}

} // verus!
